//! The table of canonical signal instances, one per catalog number.

use vstd::prelude::*;
use crate::error::Error;
use crate::signal::{Signal, valid_signal_number};

verus! {

/// A fully built table of canonical `Signal` instances.
///
/// Entry `i` holds the instance for signal number `i + 1`. The table is
/// immutable once built; a host embedding that wants a single process-wide
/// copy builds it once behind a race-safe one-time initialization primitive
/// and shares it. `lemma_tables_agree` shows that nothing is at stake in the
/// race: every successful build yields exactly the same table.
pub struct SignalTable {
    entries: Vec<Signal>,
}

impl View for SignalTable {
    type V = Seq<Signal>;

    closed spec fn view(&self) -> Seq<Signal> {
        self.entries@
    }
}

impl SignalTable {
    /// A table is well formed when it holds the canonical instance of every
    /// catalog number, in order.
    pub open spec fn wf(&self) -> bool {
        &&& self@.len() == 31
        &&& forall|i: int| 0 <= i < 31 ==> (#[trigger] self@[i])@ == i + 1
    }

    /// Builds the table: all entries are created together, in one pass.
    pub fn new() -> (t: SignalTable)
        ensures
            t.wf(),
    {
        let mut entries: Vec<Signal> = Vec::new();
        let mut v: i32 = 1;
        while v <= 31
            invariant
                1 <= v <= 32,
                entries@.len() == v - 1,
                forall|i: int| 0 <= i < v - 1 ==> (#[trigger] entries@[i])@ == i + 1,
            decreases 32 - v,
        {
            let s = Signal::from_raw(v).unwrap();
            entries.push(s);
            v = v + 1;
        }
        SignalTable { entries }
    }

    /// The canonical instance for a recognized signal number; any other
    /// number is rejected explicitly with an `InvalidArgument` failure
    /// naming it, never silently mapped to some other entry.
    pub fn instance_for(&self, v: i32) -> (r: Result<Signal, Error>)
        requires
            self.wf(),
        ensures
            valid_signal_number(v as int) ==> (r matches Ok(s) && s@ == v),
            !valid_signal_number(v as int) ==> r == Err::<Signal, Error>(
                Error::InvalidArgument(v),
            ),
    {
        if 1 <= v && v <= 31 {
            let idx: usize = (v - 1) as usize;
            Ok(self.entries[idx])
        } else {
            Err(Error::InvalidArgument(v))
        }
    }

    /// Any two well-formed tables hold exactly the same instances: whichever
    /// build of the table a caller observes, looking up a number gives the
    /// identical canonical signal.
    pub proof fn lemma_tables_agree(t1: SignalTable, t2: SignalTable)
        requires
            t1.wf(),
            t2.wf(),
        ensures
            t1@ =~= t2@,
    {
        assert forall|i: int| 0 <= i < 31 implies t1@[i] == t2@[i] by {
            Signal::lemma_canonical_identity(t1@[i], t2@[i]);
        }
    }
}

} // verus!
