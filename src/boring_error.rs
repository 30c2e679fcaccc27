use vstd::prelude::*;
use vstd::string::StringExecFns;

verus! {

/// An error reported by the cryptographic library, holding its error stack: one line per
/// frame, the innermost first. There is always at least one frame.
pub struct BoringError {
    stack_trace: Vec<String>,
}

/// The frames of a stack trace as character sequences.
pub open spec fn frames_of(trace: Seq<String>) -> Seq<Seq<char>> {
    trace.map_values(|s: String| s@)
}

/// The single frame that stands for a failure which left the error stack empty.
pub open spec fn failed_call_frame(f: Seq<char>) -> Seq<char> {
    "error calling "@ + f
}

/// The frames joined into text, each followed by a newline.
pub open spec fn lines_of(frames: Seq<Seq<char>>) -> Seq<char>
    decreases frames.len(),
{
    if frames.len() == 0 {
        Seq::empty()
    } else {
        lines_of(frames.drop_last()) + frames.last() + seq!['\n']
    }
}

impl View for BoringError {
    type V = Seq<Seq<char>>;

    closed spec fn view(&self) -> Seq<Seq<char>> {
        frames_of(self.stack_trace@)
    }
}

impl BoringError {
    #[verifier::type_invariant]
    spec fn has_frame(&self) -> bool {
        self.stack_trace.len() >= 1
    }

    /// Builds the error for a failed call of the function named `f` from the error stack
    /// `trace` that was drained after the failure. Where the stack was empty, the error holds
    /// the single frame `error calling f`.
    pub fn consume_stack(f: &str, trace: Vec<String>) -> (r: BoringError)
        ensures
            trace@.len() == 0 ==> r@ == seq![failed_call_frame(f@)],
            trace@.len() > 0 ==> r@ == frames_of(trace@),
    {
        let stack_trace = if trace.len() == 0 {
            let mut only = Vec::new();
            only.push(String::from_str("error calling ").concat(f));
            proof {
                assert(frames_of(only@) =~= seq![failed_call_frame(f@)]);
            }
            only
        } else {
            trace
        };
        BoringError { stack_trace }
    }

    /// The number of frames in the stack trace, at least 1.
    pub fn stack_depth(&self) -> (r: usize)
        ensures
            r == self@.len(),
            r >= 1,
    {
        proof {
            use_type_invariant(self);
        }
        self.stack_trace.len()
    }

    /// The short form of the error: its first frame.
    pub fn display_string(&self) -> (r: String)
        ensures
            r@ == self@[0],
    {
        proof {
            use_type_invariant(self);
        }
        self.stack_trace[0].clone()
    }

    /// The long form of the error: every frame, each on a line of its own.
    pub fn debug_string(&self) -> (r: String)
        ensures
            r@ == lines_of(self@),
    {
        let mut out = String::new();
        let mut i: usize = 0;
        while i < self.stack_trace.len()
            invariant
                i <= self.stack_trace@.len(),
                out@ == lines_of(frames_of(self.stack_trace@.subrange(0, i as int))),
            decreases self.stack_trace@.len() - i,
        {
            out.append(self.stack_trace[i].as_str());
            out.append("\n");
            proof {
                reveal_strlit("\n");
                let done = frames_of(self.stack_trace@.subrange(0, i + 1));
                assert(done.drop_last() =~= frames_of(self.stack_trace@.subrange(0, i as int)));
                assert(done.last() == self.stack_trace@[i as int]@);
            }
            i = i + 1;
        }
        proof {
            assert(self.stack_trace@.subrange(0, i as int) =~= self.stack_trace@);
        }
        out
    }
}

} // verus!
