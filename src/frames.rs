use vstd::prelude::*;
use crate::direction::Direction;

verus! {

/// The frame indices `start, start + 1, ..., end - 1` (empty when `end <= start`).
pub open spec fn range_seq(start: int, end: int) -> Seq<usize> {
    Seq::new(if end > start { (end - start) as nat } else { 0 }, |i: int| (start + i) as usize)
}

/// The sheet's rows are stacked DownRight, DownLeft, UpRight, UpLeft, whatever
/// order the enum declares.
/// With rows of `row_length` frames, a direction's row starts at this frame.
pub open spec fn row_start(row_length: int, d: Direction) -> int {
    match d {
        Direction::DownRight => 0,
        Direction::DownLeft => row_length,
        Direction::UpRight => 2 * row_length,
        Direction::UpLeft => 3 * row_length,
    }
}

/// The frames that a sheet with rows of `row_length` frames holds for `d`.
pub open spec fn row_frames(row_length: int, d: Direction) -> Seq<usize> {
    range_seq(row_start(row_length, d), row_start(row_length, d) + row_length)
}

/// What a list of `(direction, start, end)` entries gives for `d`: the range
/// of the last entry for `d`, if there is one.
pub open spec fn ranges_lookup(ranges: Seq<(Direction, usize, usize)>, d: Direction) -> Option<
    Seq<usize>,
>
    decreases ranges.len(),
{
    if ranges.len() == 0 {
        None
    } else if ranges.last().0 == d {
        Some(range_seq(ranges.last().1 as int, ranges.last().2 as int))
    } else {
        ranges_lookup(ranges.drop_last(), d)
    }
}

fn range_vec(start: usize, end: usize) -> (r: Vec<usize>)
    ensures
        r@ == range_seq(start as int, end as int),
{
    let mut r: Vec<usize> = Vec::new();
    if end <= start {
        assert(r@ =~= range_seq(start as int, end as int));
        return r;
    }
    let mut i: usize = start;
    while i < end
        invariant
            start <= i <= end,
            r@ == range_seq(start as int, i as int),
        decreases end - i,
    {
        r.push(i);
        i = i + 1;
        assert(r@ =~= range_seq(start as int, i as int));
    }
    assert(r@ =~= range_seq(start as int, end as int));
    r
}

/// For one animation state: the frames of each direction, in playing order.
#[derive(Clone, Debug)]
pub struct DirectionalIndices {
    down_right: Option<Vec<usize>>,
    down_left: Option<Vec<usize>>,
    up_right: Option<Vec<usize>>,
    up_left: Option<Vec<usize>>,
}

pub open spec fn opt_view(o: Option<Vec<usize>>) -> Option<Seq<usize>> {
    match o {
        Some(v) => Some(v@),
        None => None,
    }
}

impl DirectionalIndices {
    /// The frames held for `d`, if any.
    pub closed spec fn lookup(self, d: Direction) -> Option<Seq<usize>> {
        match d {
            Direction::DownRight => opt_view(self.down_right),
            Direction::DownLeft => opt_view(self.down_left),
            Direction::UpRight => opt_view(self.up_right),
            Direction::UpLeft => opt_view(self.up_left),
        }
    }

    /// A table with no direction.
    pub fn empty() -> (r: DirectionalIndices)
        ensures
            forall|d: Direction| r.lookup(d) == None::<Seq<usize>>,
    {
        DirectionalIndices { down_right: None, down_left: None, up_right: None, up_left: None }
    }

    /// Sets the frames of `d` and leaves the others.
    pub fn insert(&mut self, d: Direction, frames: Vec<usize>)
        ensures
            final(self).lookup(d) == Some(frames@),
            forall|e: Direction| e != d ==> final(self).lookup(e) == old(self).lookup(e),
    {
        match d {
            Direction::DownRight => self.down_right = Some(frames),
            Direction::DownLeft => self.down_left = Some(frames),
            Direction::UpRight => self.up_right = Some(frames),
            Direction::UpLeft => self.up_left = Some(frames),
        }
    }

    /// The frames of `d`, if any.
    pub fn get(&self, d: Direction) -> (r: Option<&Vec<usize>>)
        ensures
            r is Some <==> self.lookup(d) is Some,
            r is Some ==> Some(r->0@) == self.lookup(d),
    {
        match d {
            Direction::DownRight => self.down_right.as_ref(),
            Direction::DownLeft => self.down_left.as_ref(),
            Direction::UpRight => self.up_right.as_ref(),
            Direction::UpLeft => self.up_left.as_ref(),
        }
    }

    /// One contiguous range of frames per listed direction; a direction
    /// listed twice keeps its last range.
    pub fn of_ranges(ranges: Vec<(Direction, usize, usize)>) -> (r: DirectionalIndices)
        ensures
            forall|d: Direction| r.lookup(d) == ranges_lookup(ranges@, d),
    {
        let mut table = DirectionalIndices::empty();
        let mut k: usize = 0;
        while k < ranges.len()
            invariant
                k <= ranges.len(),
                forall|d: Direction| table.lookup(d) == ranges_lookup(ranges@.take(k as int), d),
            decreases ranges.len() - k,
        {
            let (dir, start, end) = ranges[k];
            let frames = range_vec(start, end);
            table.insert(dir, frames);
            k = k + 1;
            assert(ranges@.take(k as int).drop_last() =~= ranges@.take(k - 1));
        }
        assert(ranges@.take(k as int) =~= ranges@);
        table
    }

    /// The table of a sheet with four stacked rows of `row_length` frames.
    pub fn of_rows(row_length: usize) -> (r: DirectionalIndices)
        requires
            row_length * 4 <= usize::MAX,
        ensures
            forall|d: Direction| r.lookup(d) == Some(row_frames(row_length as int, d)),
    {
        let ranges = vec![
            (Direction::DownRight, 0, row_length),
            (Direction::DownLeft, row_length, row_length * 2),
            (Direction::UpRight, row_length * 2, row_length * 3),
            (Direction::UpLeft, row_length * 3, row_length * 4),
        ];
        let r = DirectionalIndices::of_ranges(ranges);
        let ghost s0 = ranges@;
        let ghost s1 = s0.drop_last();
        let ghost s2 = s1.drop_last();
        let ghost s3 = s2.drop_last();
        assert(s0.last() == (Direction::UpLeft, (row_length * 3) as usize, (row_length * 4) as usize));
        assert(s1.last() == (Direction::UpRight, (row_length * 2) as usize, (row_length * 3) as usize));
        assert(s2.last() == (Direction::DownLeft, row_length, (row_length * 2) as usize));
        assert(s3.last() == (Direction::DownRight, 0usize, row_length));
        assert(ranges_lookup(s0, Direction::UpLeft) == Some(row_frames(row_length as int, Direction::UpLeft)));
        assert(ranges_lookup(s0, Direction::UpRight) == ranges_lookup(s1, Direction::UpRight));
        assert(ranges_lookup(s1, Direction::UpRight) == Some(row_frames(row_length as int, Direction::UpRight)));
        assert(ranges_lookup(s0, Direction::DownLeft) == ranges_lookup(s1, Direction::DownLeft));
        assert(ranges_lookup(s1, Direction::DownLeft) == ranges_lookup(s2, Direction::DownLeft));
        assert(ranges_lookup(s2, Direction::DownLeft) == Some(row_frames(row_length as int, Direction::DownLeft)));
        assert(ranges_lookup(s0, Direction::DownRight) == ranges_lookup(s1, Direction::DownRight));
        assert(ranges_lookup(s1, Direction::DownRight) == ranges_lookup(s2, Direction::DownRight));
        assert(ranges_lookup(s2, Direction::DownRight) == ranges_lookup(s3, Direction::DownRight));
        assert(ranges_lookup(s3, Direction::DownRight) == Some(row_frames(row_length as int, Direction::DownRight)));
        assert forall|d: Direction| r.lookup(d) == Some(row_frames(row_length as int, d)) by {
            match d {
                Direction::UpLeft => {},
                Direction::UpRight => {},
                Direction::DownLeft => {},
                Direction::DownRight => {},
            }
        }
        r
    }
}

/// A playback cursor: the frames of the current state and direction, and
/// the offset of the frame on screen.
#[derive(Clone, Debug)]
pub struct AnimationIndices {
    pub indices: Vec<usize>,
    pub current_offset: usize,
}

/// The frame a cursor shows: the one at its offset, or frame 0 when it holds
/// no frames.
pub open spec fn shown_frame(indices: Seq<usize>, offset: int) -> usize {
    if indices.len() == 0 {
        0
    } else {
        indices[offset]
    }
}

/// Whether advancing a cursor over `len` frames from `offset` wraps.
pub open spec fn advance_wraps(len: int, offset: int) -> bool {
    len == 0 || offset + 1 >= len
}

/// The offset after advancing a cursor over `len` frames from `offset`.
pub open spec fn advance_offset(len: int, offset: int) -> int {
    if len == 0 {
        offset
    } else if offset + 1 >= len {
        0
    } else {
        offset + 1
    }
}

impl AnimationIndices {
    /// The offset lies within the frames, or the frames are empty.
    pub open spec fn wf(&self) -> bool {
        self.indices.len() == 0 || self.current_offset < self.indices.len()
    }

    /// A cursor on the single frame 0.
    pub fn new() -> (r: AnimationIndices)
        ensures
            r.indices@ == seq![0usize],
            r.current_offset == 0,
            r.wf(),
    {
        AnimationIndices { indices: vec![0], current_offset: 0 }
    }

    /// Binds new frames and goes back to the first.
    pub fn set_indices(&mut self, indices: Vec<usize>)
        ensures
            final(self).indices@ == indices@,
            final(self).current_offset == 0,
            final(self).wf(),
    {
        self.indices = indices;
        self.current_offset = 0;
    }

    /// Moves to the next frame. Returns whether the cursor wrapped around to
    /// the first frame, which ends a one-shot; a cursor with no frames always
    /// counts as wrapped.
    pub fn advance(&mut self) -> (wrapped: bool)
        requires
            old(self).wf(),
        ensures
            final(self).wf(),
            final(self).indices@ == old(self).indices@,
            wrapped == advance_wraps(old(self).indices.len() as int, old(self).current_offset as int),
            final(self).current_offset == advance_offset(
                old(self).indices.len() as int,
                old(self).current_offset as int,
            ),
    {
        if self.indices.len() == 0 {
            return true;
        }
        self.current_offset = self.current_offset + 1;
        if self.current_offset >= self.indices.len() {
            self.current_offset = 0;
            true
        } else {
            false
        }
    }

    /// The frame on screen.
    pub fn get_index(&self) -> (r: usize)
        requires
            self.wf(),
        ensures
            r == shown_frame(self.indices@, self.current_offset as int),
    {
        if self.indices.len() == 0 {
            return 0;
        }
        self.indices[self.current_offset]
    }
}

} // verus!
