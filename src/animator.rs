use vstd::prelude::*;
use vstd::string::StringExecFns;

use crate::text::{append_decimal, decimal, decimal_len, zero_padded};

verus! {

/// One frame of an animation: its number and the number of frames in all.
pub struct Frame {
    current: usize,
    count: usize,
}

impl Frame {
    pub fn new(current: usize, count: usize) -> (r: Self)
        ensures
            r.current_spec() == current,
            r.count_spec() == count,
    {
        Self { current, count }
    }

    /// The frame's number.
    pub closed spec fn current_spec(&self) -> usize {
        self.current
    }

    /// The number of frames in the animation.
    pub closed spec fn count_spec(&self) -> usize {
        self.count
    }

    /// The name of the frame's file: `path`, `name`, the frame number in at least five
    /// digits, a dot and `suffix`.
    pub fn file_name(&self, path: &str, name: &str, suffix: &str) -> (r: String)
        ensures
            r@ == path@ + name@ + zero_padded(self.current_spec() as nat, 5) + seq!['.'] + suffix@,
    {
        let mut out = String::from_str(path);
        out.append(name);
        let digits = decimal_len(self.current);
        let ghost before = out@;
        let mut pad: usize = digits;
        while pad < 5
            invariant
                digits <= pad <= 5 || (pad == digits && digits >= 5),
                digits == decimal(self.current as nat).len(),
                out@ == before + Seq::new((pad - digits) as nat, |_i: int| '0'),
            decreases 5 - pad,
        {
            proof { reveal_strlit("0"); }
            out.append("0");
            assert(out@ =~= before + Seq::new((pad + 1 - digits) as nat, |_i: int| '0'));
            pad += 1;
        }
        let ghost padded = out@;
        append_decimal(&mut out, self.current);
        assert(out@ =~= path@ + name@ + zero_padded(self.current as nat, 5)) by {
            if digits >= 5 {
                assert(Seq::new((pad - digits) as nat, |_i: int| '0') =~= Seq::<char>::empty());
            }
        }
        proof { reveal_strlit("."); }
        out.append(".");
        out.append(suffix);
        assert(out@ =~= path@ + name@ + zero_padded(self.current as nat, 5) + seq!['.'] + suffix@);
        out
    }

    pub fn current(&self) -> (r: usize)
        ensures
            r == self.current_spec(),
    {
        self.current
    }

    pub fn count(&self) -> (r: usize)
        ensures
            r == self.count_spec(),
    {
        self.count
    }
}

/// Runs a function once for each frame of an animation.
pub struct Animator {
    frame_count: usize,
}

impl Animator {
    pub fn new(frame_count: usize) -> (r: Self)
        ensures
            r.frame_count_spec() == frame_count,
    {
        Self { frame_count }
    }

    /// The number of frames.
    pub closed spec fn frame_count_spec(&self) -> usize {
        self.frame_count
    }

    /// Calls `animete` on frames `0, 1, ...` up to the last one, in order, each frame
    /// knowing the number of frames.
    pub fn animate<F: Fn(Frame)>(&self, animete: F)
        requires
            forall|f: Frame|
                f.count_spec() == self.frame_count_spec() && f.current_spec() < self.frame_count_spec()
                    ==> #[trigger] animete.requires((f,)),
    {
        let mut current_frame: usize = 0;
        while current_frame < self.frame_count
            invariant
                forall|f: Frame|
                    f.count_spec() == self.frame_count_spec() && f.current_spec() < self.frame_count_spec()
                        ==> #[trigger] animete.requires((f,)),
            decreases self.frame_count - current_frame,
        {
            let frame_count = self.frame_count;
            animete(Frame::new(current_frame, frame_count));
            current_frame += 1;
        }
    }
}

} // verus!
