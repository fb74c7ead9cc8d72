//! The signal catalog: one canonical `Signal` value per classic POSIX signal
//! number in the inclusive range 1 through 31, with bidirectional lookup
//! between numbers and canonical uppercase names.

use vstd::prelude::*;
use vstd::string::StrSliceExecFns;
use crate::error::Error;

verus! {

/// The canonical uppercase name of each signal number the catalog knows.
/// Numbers outside the catalog have no name.
pub open spec fn name_spec(v: int) -> Seq<char> {
    if v == 1 {
        "SIGHUP"@
    } else if v == 2 {
        "SIGINT"@
    } else if v == 3 {
        "SIGQUIT"@
    } else if v == 4 {
        "SIGILL"@
    } else if v == 5 {
        "SIGTRAP"@
    } else if v == 6 {
        "SIGABRT"@
    } else if v == 7 {
        "SIGBUS"@
    } else if v == 8 {
        "SIGFPE"@
    } else if v == 9 {
        "SIGKILL"@
    } else if v == 10 {
        "SIGUSR1"@
    } else if v == 11 {
        "SIGSEGV"@
    } else if v == 12 {
        "SIGUSR2"@
    } else if v == 13 {
        "SIGPIPE"@
    } else if v == 14 {
        "SIGALRM"@
    } else if v == 15 {
        "SIGTERM"@
    } else if v == 16 {
        "SIGSTKFLT"@
    } else if v == 17 {
        "SIGCHLD"@
    } else if v == 18 {
        "SIGCONT"@
    } else if v == 19 {
        "SIGSTOP"@
    } else if v == 20 {
        "SIGTSTP"@
    } else if v == 21 {
        "SIGTTIN"@
    } else if v == 22 {
        "SIGTTOU"@
    } else if v == 23 {
        "SIGURG"@
    } else if v == 24 {
        "SIGXCPU"@
    } else if v == 25 {
        "SIGXFSZ"@
    } else if v == 26 {
        "SIGVTALRM"@
    } else if v == 27 {
        "SIGPROF"@
    } else if v == 28 {
        "SIGWINCH"@
    } else if v == 29 {
        "SIGIO"@
    } else if v == 30 {
        "SIGPWR"@
    } else if v == 31 {
        "SIGSYS"@
    } else {
        Seq::empty()
    }
}

/// The numeric value whose canonical name is the given string: the inverse of
/// `name_spec` on the catalog's names, `None` on every other string.
pub open spec fn value_of_spec(s: Seq<char>) -> Option<i32> {
    if s == "SIGHUP"@ {
        Some(1i32)
    } else if s == "SIGINT"@ {
        Some(2i32)
    } else if s == "SIGQUIT"@ {
        Some(3i32)
    } else if s == "SIGILL"@ {
        Some(4i32)
    } else if s == "SIGTRAP"@ {
        Some(5i32)
    } else if s == "SIGABRT"@ {
        Some(6i32)
    } else if s == "SIGBUS"@ {
        Some(7i32)
    } else if s == "SIGFPE"@ {
        Some(8i32)
    } else if s == "SIGKILL"@ {
        Some(9i32)
    } else if s == "SIGUSR1"@ {
        Some(10i32)
    } else if s == "SIGSEGV"@ {
        Some(11i32)
    } else if s == "SIGUSR2"@ {
        Some(12i32)
    } else if s == "SIGPIPE"@ {
        Some(13i32)
    } else if s == "SIGALRM"@ {
        Some(14i32)
    } else if s == "SIGTERM"@ {
        Some(15i32)
    } else if s == "SIGSTKFLT"@ {
        Some(16i32)
    } else if s == "SIGCHLD"@ {
        Some(17i32)
    } else if s == "SIGCONT"@ {
        Some(18i32)
    } else if s == "SIGSTOP"@ {
        Some(19i32)
    } else if s == "SIGTSTP"@ {
        Some(20i32)
    } else if s == "SIGTTIN"@ {
        Some(21i32)
    } else if s == "SIGTTOU"@ {
        Some(22i32)
    } else if s == "SIGURG"@ {
        Some(23i32)
    } else if s == "SIGXCPU"@ {
        Some(24i32)
    } else if s == "SIGXFSZ"@ {
        Some(25i32)
    } else if s == "SIGVTALRM"@ {
        Some(26i32)
    } else if s == "SIGPROF"@ {
        Some(27i32)
    } else if s == "SIGWINCH"@ {
        Some(28i32)
    } else if s == "SIGIO"@ {
        Some(29i32)
    } else if s == "SIGPWR"@ {
        Some(30i32)
    } else if s == "SIGSYS"@ {
        Some(31i32)
    } else {
        None
    }
}

/// One POSIX signal identity, carried as its numeric value.
///
/// The kernel reserves 0 to mean "no signal"; a `Signal` therefore always
/// holds a value between 1 and 31.
#[derive(Debug, Clone, Copy, PartialEq, Eq, Structural)]
pub struct Signal {
    value: i32,
}

impl View for Signal {
    type V = int;

    closed spec fn view(&self) -> int {
        self.value as int
    }
}

/// The numeric values the catalog recognizes as signal numbers.
pub open spec fn valid_signal_number(v: int) -> bool {
    1 <= v <= 31
}

impl Signal {
    /// A signal value is well formed when its number lies in the catalog.
    pub open spec fn wf(&self) -> bool {
        valid_signal_number(self@)
    }

    /// Builds the canonical `Signal` for a raw number, rejecting any number
    /// outside the catalog's range.
    pub fn from_raw(v: i32) -> (r: Option<Signal>)
        ensures
            r is Some <==> valid_signal_number(v as int),
            r matches Some(s) ==> s@ == v && s.wf(),
    {
        if 1 <= v && v <= 31 {
            Some(Signal { value: v })
        } else {
            None
        }
    }

    /// The numeric value of this signal.
    pub fn value(&self) -> (r: i32)
        ensures
            r == self@,
    {
        self.value
    }

    /// Builds a `Signal` from either an existing instance, which passes
    /// through unchanged, or a raw number, which must be one the catalog
    /// accepts; any other number is rejected before any kernel call with an
    /// `InvalidArgument` failure naming it.
    pub fn new(input: SignalInput) -> (r: Result<Signal, Error>)
        ensures
            input matches SignalInput::Existing(s) ==> r == Ok::<Signal, Error>(s),
            input matches SignalInput::Raw(v) ==> if valid_signal_number(v as int) {
                r matches Ok(s) && s@ == v
            } else {
                r == Err::<Signal, Error>(Error::InvalidArgument(v))
            },
    {
        match input {
            SignalInput::Existing(s) => Ok(s),
            SignalInput::Raw(v) => match Signal::from_raw(v) {
                Some(s) => Ok(s),
                None => Err(Error::InvalidArgument(v)),
            },
        }
    }

    /// The canonical uppercase name of this signal, such as `"SIGTERM"`.
    pub fn name(&self) -> (r: &'static str)
        requires
            self.wf(),
        ensures
            r@ == name_spec(self@),
    {
        name_for(self.value)
    }

    /// The fully qualified, constant-style rendering of this signal, such as
    /// `"pdeathsignal.Signal.SIGTERM"`.
    pub fn qualified_name(&self) -> (r: &'static str)
        requires
            self.wf(),
        ensures
            r@ == qualified_name_spec(self@),
    {
        match self.value {
            1 => "pdeathsignal.Signal.SIGHUP",
            2 => "pdeathsignal.Signal.SIGINT",
            3 => "pdeathsignal.Signal.SIGQUIT",
            4 => "pdeathsignal.Signal.SIGILL",
            5 => "pdeathsignal.Signal.SIGTRAP",
            6 => "pdeathsignal.Signal.SIGABRT",
            7 => "pdeathsignal.Signal.SIGBUS",
            8 => "pdeathsignal.Signal.SIGFPE",
            9 => "pdeathsignal.Signal.SIGKILL",
            10 => "pdeathsignal.Signal.SIGUSR1",
            11 => "pdeathsignal.Signal.SIGSEGV",
            12 => "pdeathsignal.Signal.SIGUSR2",
            13 => "pdeathsignal.Signal.SIGPIPE",
            14 => "pdeathsignal.Signal.SIGALRM",
            15 => "pdeathsignal.Signal.SIGTERM",
            16 => "pdeathsignal.Signal.SIGSTKFLT",
            17 => "pdeathsignal.Signal.SIGCHLD",
            18 => "pdeathsignal.Signal.SIGCONT",
            19 => "pdeathsignal.Signal.SIGSTOP",
            20 => "pdeathsignal.Signal.SIGTSTP",
            21 => "pdeathsignal.Signal.SIGTTIN",
            22 => "pdeathsignal.Signal.SIGTTOU",
            23 => "pdeathsignal.Signal.SIGURG",
            24 => "pdeathsignal.Signal.SIGXCPU",
            25 => "pdeathsignal.Signal.SIGXFSZ",
            26 => "pdeathsignal.Signal.SIGVTALRM",
            27 => "pdeathsignal.Signal.SIGPROF",
            28 => "pdeathsignal.Signal.SIGWINCH",
            29 => "pdeathsignal.Signal.SIGIO",
            30 => "pdeathsignal.Signal.SIGPWR",
            _ => "pdeathsignal.Signal.SIGSYS",
        }
    }

    /// The hangup signal, `SIGHUP`.
    pub fn sighup() -> (s: Signal)
        ensures
            s@ == 1,
    {
        Signal { value: 1 }
    }

    /// The interrupt signal, `SIGINT`.
    pub fn sigint() -> (s: Signal)
        ensures
            s@ == 2,
    {
        Signal { value: 2 }
    }

    /// The quit signal, `SIGQUIT`.
    pub fn sigquit() -> (s: Signal)
        ensures
            s@ == 3,
    {
        Signal { value: 3 }
    }

    /// The illegal-instruction signal, `SIGILL`.
    pub fn sigill() -> (s: Signal)
        ensures
            s@ == 4,
    {
        Signal { value: 4 }
    }

    /// The trace-trap signal, `SIGTRAP`.
    pub fn sigtrap() -> (s: Signal)
        ensures
            s@ == 5,
    {
        Signal { value: 5 }
    }

    /// The abort signal, `SIGABRT`.
    pub fn sigabrt() -> (s: Signal)
        ensures
            s@ == 6,
    {
        Signal { value: 6 }
    }

    /// The bus-error signal, `SIGBUS`.
    pub fn sigbus() -> (s: Signal)
        ensures
            s@ == 7,
    {
        Signal { value: 7 }
    }

    /// The arithmetic-exception signal, `SIGFPE`.
    pub fn sigfpe() -> (s: Signal)
        ensures
            s@ == 8,
    {
        Signal { value: 8 }
    }

    /// The kill signal, `SIGKILL`.
    pub fn sigkill() -> (s: Signal)
        ensures
            s@ == 9,
    {
        Signal { value: 9 }
    }

    /// The first user-defined signal, `SIGUSR1`.
    pub fn sigusr1() -> (s: Signal)
        ensures
            s@ == 10,
    {
        Signal { value: 10 }
    }

    /// The segmentation-violation signal, `SIGSEGV`.
    pub fn sigsegv() -> (s: Signal)
        ensures
            s@ == 11,
    {
        Signal { value: 11 }
    }

    /// The second user-defined signal, `SIGUSR2`.
    pub fn sigusr2() -> (s: Signal)
        ensures
            s@ == 12,
    {
        Signal { value: 12 }
    }

    /// The broken-pipe signal, `SIGPIPE`.
    pub fn sigpipe() -> (s: Signal)
        ensures
            s@ == 13,
    {
        Signal { value: 13 }
    }

    /// The alarm-clock signal, `SIGALRM`.
    pub fn sigalrm() -> (s: Signal)
        ensures
            s@ == 14,
    {
        Signal { value: 14 }
    }

    /// The termination signal, `SIGTERM`.
    pub fn sigterm() -> (s: Signal)
        ensures
            s@ == 15,
    {
        Signal { value: 15 }
    }

    /// The stack-fault signal, `SIGSTKFLT`.
    pub fn sigstkflt() -> (s: Signal)
        ensures
            s@ == 16,
    {
        Signal { value: 16 }
    }

    /// The child-status-change signal, `SIGCHLD`.
    pub fn sigchld() -> (s: Signal)
        ensures
            s@ == 17,
    {
        Signal { value: 17 }
    }

    /// The continue signal, `SIGCONT`.
    pub fn sigcont() -> (s: Signal)
        ensures
            s@ == 18,
    {
        Signal { value: 18 }
    }

    /// The stop signal, `SIGSTOP`.
    pub fn sigstop() -> (s: Signal)
        ensures
            s@ == 19,
    {
        Signal { value: 19 }
    }

    /// The terminal-stop signal, `SIGTSTP`.
    pub fn sigtstp() -> (s: Signal)
        ensures
            s@ == 20,
    {
        Signal { value: 20 }
    }

    /// The background-read signal, `SIGTTIN`.
    pub fn sigttin() -> (s: Signal)
        ensures
            s@ == 21,
    {
        Signal { value: 21 }
    }

    /// The background-write signal, `SIGTTOU`.
    pub fn sigttou() -> (s: Signal)
        ensures
            s@ == 22,
    {
        Signal { value: 22 }
    }

    /// The urgent-condition signal, `SIGURG`.
    pub fn sigurg() -> (s: Signal)
        ensures
            s@ == 23,
    {
        Signal { value: 23 }
    }

    /// The CPU-time-limit signal, `SIGXCPU`.
    pub fn sigxcpu() -> (s: Signal)
        ensures
            s@ == 24,
    {
        Signal { value: 24 }
    }

    /// The file-size-limit signal, `SIGXFSZ`.
    pub fn sigxfsz() -> (s: Signal)
        ensures
            s@ == 25,
    {
        Signal { value: 25 }
    }

    /// The virtual-timer signal, `SIGVTALRM`.
    pub fn sigvtalrm() -> (s: Signal)
        ensures
            s@ == 26,
    {
        Signal { value: 26 }
    }

    /// The profiling-timer signal, `SIGPROF`.
    pub fn sigprof() -> (s: Signal)
        ensures
            s@ == 27,
    {
        Signal { value: 27 }
    }

    /// The window-size-change signal, `SIGWINCH`.
    pub fn sigwinch() -> (s: Signal)
        ensures
            s@ == 28,
    {
        Signal { value: 28 }
    }

    /// The I/O-possible signal, `SIGIO`.
    pub fn sigio() -> (s: Signal)
        ensures
            s@ == 29,
    {
        Signal { value: 29 }
    }

    /// The power-failure signal, `SIGPWR`.
    pub fn sigpwr() -> (s: Signal)
        ensures
            s@ == 30,
    {
        Signal { value: 30 }
    }

    /// The bad-system-call signal, `SIGSYS`.
    pub fn sigsys() -> (s: Signal)
        ensures
            s@ == 31,
    {
        Signal { value: 31 }
    }

    /// Two signals with the same numeric value are the same value outright:
    /// equality by number is identity of the canonical instance.
    pub proof fn lemma_canonical_identity(s1: Signal, s2: Signal)
        ensures
            s1@ == s2@ ==> s1 == s2,
    {
    }
}

/// The two shapes a caller may hand over where a signal is expected: an
/// existing `Signal`, or a raw number still to be validated.
pub enum SignalInput {
    Existing(Signal),
    Raw(i32),
}

/// The fully qualified, constant-style rendering of each signal number the
/// catalog knows.
pub open spec fn qualified_name_spec(v: int) -> Seq<char> {
    if v == 1 {
        "pdeathsignal.Signal.SIGHUP"@
    } else if v == 2 {
        "pdeathsignal.Signal.SIGINT"@
    } else if v == 3 {
        "pdeathsignal.Signal.SIGQUIT"@
    } else if v == 4 {
        "pdeathsignal.Signal.SIGILL"@
    } else if v == 5 {
        "pdeathsignal.Signal.SIGTRAP"@
    } else if v == 6 {
        "pdeathsignal.Signal.SIGABRT"@
    } else if v == 7 {
        "pdeathsignal.Signal.SIGBUS"@
    } else if v == 8 {
        "pdeathsignal.Signal.SIGFPE"@
    } else if v == 9 {
        "pdeathsignal.Signal.SIGKILL"@
    } else if v == 10 {
        "pdeathsignal.Signal.SIGUSR1"@
    } else if v == 11 {
        "pdeathsignal.Signal.SIGSEGV"@
    } else if v == 12 {
        "pdeathsignal.Signal.SIGUSR2"@
    } else if v == 13 {
        "pdeathsignal.Signal.SIGPIPE"@
    } else if v == 14 {
        "pdeathsignal.Signal.SIGALRM"@
    } else if v == 15 {
        "pdeathsignal.Signal.SIGTERM"@
    } else if v == 16 {
        "pdeathsignal.Signal.SIGSTKFLT"@
    } else if v == 17 {
        "pdeathsignal.Signal.SIGCHLD"@
    } else if v == 18 {
        "pdeathsignal.Signal.SIGCONT"@
    } else if v == 19 {
        "pdeathsignal.Signal.SIGSTOP"@
    } else if v == 20 {
        "pdeathsignal.Signal.SIGTSTP"@
    } else if v == 21 {
        "pdeathsignal.Signal.SIGTTIN"@
    } else if v == 22 {
        "pdeathsignal.Signal.SIGTTOU"@
    } else if v == 23 {
        "pdeathsignal.Signal.SIGURG"@
    } else if v == 24 {
        "pdeathsignal.Signal.SIGXCPU"@
    } else if v == 25 {
        "pdeathsignal.Signal.SIGXFSZ"@
    } else if v == 26 {
        "pdeathsignal.Signal.SIGVTALRM"@
    } else if v == 27 {
        "pdeathsignal.Signal.SIGPROF"@
    } else if v == 28 {
        "pdeathsignal.Signal.SIGWINCH"@
    } else if v == 29 {
        "pdeathsignal.Signal.SIGIO"@
    } else if v == 30 {
        "pdeathsignal.Signal.SIGPWR"@
    } else if v == 31 {
        "pdeathsignal.Signal.SIGSYS"@
    } else {
        Seq::empty()
    }
}

/// The canonical uppercase name for a recognized signal number.
pub fn name_for(v: i32) -> (r: &'static str)
    requires
        valid_signal_number(v as int),
    ensures
        r@ == name_spec(v as int),
{
    match v {
        1 => "SIGHUP",
        2 => "SIGINT",
        3 => "SIGQUIT",
        4 => "SIGILL",
        5 => "SIGTRAP",
        6 => "SIGABRT",
        7 => "SIGBUS",
        8 => "SIGFPE",
        9 => "SIGKILL",
        10 => "SIGUSR1",
        11 => "SIGSEGV",
        12 => "SIGUSR2",
        13 => "SIGPIPE",
        14 => "SIGALRM",
        15 => "SIGTERM",
        16 => "SIGSTKFLT",
        17 => "SIGCHLD",
        18 => "SIGCONT",
        19 => "SIGSTOP",
        20 => "SIGTSTP",
        21 => "SIGTTIN",
        22 => "SIGTTOU",
        23 => "SIGURG",
        24 => "SIGXCPU",
        25 => "SIGXFSZ",
        26 => "SIGVTALRM",
        27 => "SIGPROF",
        28 => "SIGWINCH",
        29 => "SIGIO",
        30 => "SIGPWR",
        _ => "SIGSYS",
    }
}

/// Compares two strings character by character.
fn chars_equal(a: &str, b: &str) -> (r: bool)
    ensures
        r == (a@ == b@),
{
    let a_len = a.unicode_len();
    let b_len = b.unicode_len();
    if a_len != b_len {
        return false;
    }
    let mut i: usize = 0;
    while i < a_len
        invariant
            i <= a_len,
            a_len == a@.len(),
            b_len == b@.len(),
            a_len == b_len,
            forall|j: int| 0 <= j < i ==> a@[j] == b@[j],
        decreases a_len - i,
    {
        if a.get_char(i) != b.get_char(i) {
            return false;
        }
        i = i + 1;
    }
    proof {
        assert(a@ =~= b@);
    }
    true
}

/// The numeric value bound to a canonical signal name: the inverse of
/// `name_for` on the catalog's names, `None` on every other string.
pub fn value_of(name: &str) -> (r: Option<i32>)
    ensures
        r == value_of_spec(name@),
{
    if chars_equal(name, "SIGHUP") {
        Some(1)
    } else if chars_equal(name, "SIGINT") {
        Some(2)
    } else if chars_equal(name, "SIGQUIT") {
        Some(3)
    } else if chars_equal(name, "SIGILL") {
        Some(4)
    } else if chars_equal(name, "SIGTRAP") {
        Some(5)
    } else if chars_equal(name, "SIGABRT") {
        Some(6)
    } else if chars_equal(name, "SIGBUS") {
        Some(7)
    } else if chars_equal(name, "SIGFPE") {
        Some(8)
    } else if chars_equal(name, "SIGKILL") {
        Some(9)
    } else if chars_equal(name, "SIGUSR1") {
        Some(10)
    } else if chars_equal(name, "SIGSEGV") {
        Some(11)
    } else if chars_equal(name, "SIGUSR2") {
        Some(12)
    } else if chars_equal(name, "SIGPIPE") {
        Some(13)
    } else if chars_equal(name, "SIGALRM") {
        Some(14)
    } else if chars_equal(name, "SIGTERM") {
        Some(15)
    } else if chars_equal(name, "SIGSTKFLT") {
        Some(16)
    } else if chars_equal(name, "SIGCHLD") {
        Some(17)
    } else if chars_equal(name, "SIGCONT") {
        Some(18)
    } else if chars_equal(name, "SIGSTOP") {
        Some(19)
    } else if chars_equal(name, "SIGTSTP") {
        Some(20)
    } else if chars_equal(name, "SIGTTIN") {
        Some(21)
    } else if chars_equal(name, "SIGTTOU") {
        Some(22)
    } else if chars_equal(name, "SIGURG") {
        Some(23)
    } else if chars_equal(name, "SIGXCPU") {
        Some(24)
    } else if chars_equal(name, "SIGXFSZ") {
        Some(25)
    } else if chars_equal(name, "SIGVTALRM") {
        Some(26)
    } else if chars_equal(name, "SIGPROF") {
        Some(27)
    } else if chars_equal(name, "SIGWINCH") {
        Some(28)
    } else if chars_equal(name, "SIGIO") {
        Some(29)
    } else if chars_equal(name, "SIGPWR") {
        Some(30)
    } else if chars_equal(name, "SIGSYS") {
        Some(31)
    } else {
        None
    }
}

/// The catalog's names and numbers invert each other: looking up the name of
/// a recognized signal number and taking that name's value gives the number
/// back.
pub proof fn lemma_name_value_round_trip(v: i32)
    requires
        valid_signal_number(v as int),
    ensures
        value_of_spec(name_spec(v as int)) == Some(v),
{
    reveal_strlit("SIGHUP");
    reveal_strlit("SIGINT");
    reveal_strlit("SIGQUIT");
    reveal_strlit("SIGILL");
    reveal_strlit("SIGTRAP");
    reveal_strlit("SIGABRT");
    reveal_strlit("SIGBUS");
    reveal_strlit("SIGFPE");
    reveal_strlit("SIGKILL");
    reveal_strlit("SIGUSR1");
    reveal_strlit("SIGSEGV");
    reveal_strlit("SIGUSR2");
    reveal_strlit("SIGPIPE");
    reveal_strlit("SIGALRM");
    reveal_strlit("SIGTERM");
    reveal_strlit("SIGSTKFLT");
    reveal_strlit("SIGCHLD");
    reveal_strlit("SIGCONT");
    reveal_strlit("SIGSTOP");
    reveal_strlit("SIGTSTP");
    reveal_strlit("SIGTTIN");
    reveal_strlit("SIGTTOU");
    reveal_strlit("SIGURG");
    reveal_strlit("SIGXCPU");
    reveal_strlit("SIGXFSZ");
    reveal_strlit("SIGVTALRM");
    reveal_strlit("SIGPROF");
    reveal_strlit("SIGWINCH");
    reveal_strlit("SIGIO");
    reveal_strlit("SIGPWR");
    reveal_strlit("SIGSYS");
    // Any two catalog names differ in length or in one of the characters
    // named here; these facts let every comparison in `value_of_spec`
    // resolve.
    assert("SIGHUP"@.len() == 6 && "SIGHUP"@[3] == 'H' && "SIGHUP"@[4] == 'U');
    assert("SIGINT"@.len() == 6 && "SIGINT"@[3] == 'I' && "SIGINT"@[4] == 'N');
    assert("SIGQUIT"@.len() == 7 && "SIGQUIT"@[3] == 'Q' && "SIGQUIT"@[4] == 'U');
    assert("SIGILL"@.len() == 6 && "SIGILL"@[3] == 'I' && "SIGILL"@[4] == 'L');
    assert("SIGTRAP"@.len() == 7 && "SIGTRAP"@[3] == 'T' && "SIGTRAP"@[4] == 'R');
    assert("SIGABRT"@.len() == 7 && "SIGABRT"@[3] == 'A' && "SIGABRT"@[4] == 'B');
    assert("SIGBUS"@.len() == 6 && "SIGBUS"@[3] == 'B' && "SIGBUS"@[4] == 'U');
    assert("SIGFPE"@.len() == 6 && "SIGFPE"@[3] == 'F' && "SIGFPE"@[4] == 'P');
    assert("SIGKILL"@.len() == 7 && "SIGKILL"@[3] == 'K' && "SIGKILL"@[4] == 'I');
    assert("SIGUSR1"@.len() == 7 && "SIGUSR1"@[3] == 'U' && "SIGUSR1"@[4] == 'S'
        && "SIGUSR1"@[6] == '1');
    assert("SIGSEGV"@.len() == 7 && "SIGSEGV"@[3] == 'S' && "SIGSEGV"@[4] == 'E');
    assert("SIGUSR2"@.len() == 7 && "SIGUSR2"@[3] == 'U' && "SIGUSR2"@[4] == 'S'
        && "SIGUSR2"@[6] == '2');
    assert("SIGPIPE"@.len() == 7 && "SIGPIPE"@[3] == 'P' && "SIGPIPE"@[4] == 'I');
    assert("SIGALRM"@.len() == 7 && "SIGALRM"@[3] == 'A' && "SIGALRM"@[4] == 'L');
    assert("SIGTERM"@.len() == 7 && "SIGTERM"@[3] == 'T' && "SIGTERM"@[4] == 'E');
    assert("SIGSTKFLT"@.len() == 9 && "SIGSTKFLT"@[3] == 'S' && "SIGSTKFLT"@[4] == 'T');
    assert("SIGCHLD"@.len() == 7 && "SIGCHLD"@[3] == 'C' && "SIGCHLD"@[4] == 'H');
    assert("SIGCONT"@.len() == 7 && "SIGCONT"@[3] == 'C' && "SIGCONT"@[4] == 'O');
    assert("SIGSTOP"@.len() == 7 && "SIGSTOP"@[3] == 'S' && "SIGSTOP"@[4] == 'T');
    assert("SIGTSTP"@.len() == 7 && "SIGTSTP"@[3] == 'T' && "SIGTSTP"@[4] == 'S');
    assert("SIGTTIN"@.len() == 7 && "SIGTTIN"@[3] == 'T' && "SIGTTIN"@[4] == 'T'
        && "SIGTTIN"@[5] == 'I');
    assert("SIGTTOU"@.len() == 7 && "SIGTTOU"@[3] == 'T' && "SIGTTOU"@[4] == 'T'
        && "SIGTTOU"@[5] == 'O');
    assert("SIGURG"@.len() == 6 && "SIGURG"@[3] == 'U' && "SIGURG"@[4] == 'R');
    assert("SIGXCPU"@.len() == 7 && "SIGXCPU"@[3] == 'X' && "SIGXCPU"@[4] == 'C');
    assert("SIGXFSZ"@.len() == 7 && "SIGXFSZ"@[3] == 'X' && "SIGXFSZ"@[4] == 'F');
    assert("SIGVTALRM"@.len() == 9 && "SIGVTALRM"@[3] == 'V' && "SIGVTALRM"@[4] == 'T');
    assert("SIGPROF"@.len() == 7 && "SIGPROF"@[3] == 'P' && "SIGPROF"@[4] == 'R');
    assert("SIGWINCH"@.len() == 8 && "SIGWINCH"@[3] == 'W' && "SIGWINCH"@[4] == 'I');
    assert("SIGIO"@.len() == 5 && "SIGIO"@[3] == 'I' && "SIGIO"@[4] == 'O');
    assert("SIGPWR"@.len() == 6 && "SIGPWR"@[3] == 'P' && "SIGPWR"@[4] == 'W');
    assert("SIGSYS"@.len() == 6 && "SIGSYS"@[3] == 'S' && "SIGSYS"@[4] == 'Y');
}

/// The fully qualified rendering of every catalog signal extends its plain
/// name by the fixed, constant-style prefix: the `repr` form contains the
/// `str` form.
pub proof fn lemma_qualified_name_extends_name(v: i32)
    requires
        valid_signal_number(v as int),
    ensures
        qualified_name_spec(v as int) =~= "pdeathsignal.Signal."@ + name_spec(v as int),
{
    reveal_strlit("pdeathsignal.Signal.");
    reveal_strlit("SIGHUP");
    reveal_strlit("SIGINT");
    reveal_strlit("SIGQUIT");
    reveal_strlit("SIGILL");
    reveal_strlit("SIGTRAP");
    reveal_strlit("SIGABRT");
    reveal_strlit("SIGBUS");
    reveal_strlit("SIGFPE");
    reveal_strlit("SIGKILL");
    reveal_strlit("SIGUSR1");
    reveal_strlit("SIGSEGV");
    reveal_strlit("SIGUSR2");
    reveal_strlit("SIGPIPE");
    reveal_strlit("SIGALRM");
    reveal_strlit("SIGTERM");
    reveal_strlit("SIGSTKFLT");
    reveal_strlit("SIGCHLD");
    reveal_strlit("SIGCONT");
    reveal_strlit("SIGSTOP");
    reveal_strlit("SIGTSTP");
    reveal_strlit("SIGTTIN");
    reveal_strlit("SIGTTOU");
    reveal_strlit("SIGURG");
    reveal_strlit("SIGXCPU");
    reveal_strlit("SIGXFSZ");
    reveal_strlit("SIGVTALRM");
    reveal_strlit("SIGPROF");
    reveal_strlit("SIGWINCH");
    reveal_strlit("SIGIO");
    reveal_strlit("SIGPWR");
    reveal_strlit("SIGSYS");
    reveal_strlit("pdeathsignal.Signal.SIGHUP");
    reveal_strlit("pdeathsignal.Signal.SIGINT");
    reveal_strlit("pdeathsignal.Signal.SIGQUIT");
    reveal_strlit("pdeathsignal.Signal.SIGILL");
    reveal_strlit("pdeathsignal.Signal.SIGTRAP");
    reveal_strlit("pdeathsignal.Signal.SIGABRT");
    reveal_strlit("pdeathsignal.Signal.SIGBUS");
    reveal_strlit("pdeathsignal.Signal.SIGFPE");
    reveal_strlit("pdeathsignal.Signal.SIGKILL");
    reveal_strlit("pdeathsignal.Signal.SIGUSR1");
    reveal_strlit("pdeathsignal.Signal.SIGSEGV");
    reveal_strlit("pdeathsignal.Signal.SIGUSR2");
    reveal_strlit("pdeathsignal.Signal.SIGPIPE");
    reveal_strlit("pdeathsignal.Signal.SIGALRM");
    reveal_strlit("pdeathsignal.Signal.SIGTERM");
    reveal_strlit("pdeathsignal.Signal.SIGSTKFLT");
    reveal_strlit("pdeathsignal.Signal.SIGCHLD");
    reveal_strlit("pdeathsignal.Signal.SIGCONT");
    reveal_strlit("pdeathsignal.Signal.SIGSTOP");
    reveal_strlit("pdeathsignal.Signal.SIGTSTP");
    reveal_strlit("pdeathsignal.Signal.SIGTTIN");
    reveal_strlit("pdeathsignal.Signal.SIGTTOU");
    reveal_strlit("pdeathsignal.Signal.SIGURG");
    reveal_strlit("pdeathsignal.Signal.SIGXCPU");
    reveal_strlit("pdeathsignal.Signal.SIGXFSZ");
    reveal_strlit("pdeathsignal.Signal.SIGVTALRM");
    reveal_strlit("pdeathsignal.Signal.SIGPROF");
    reveal_strlit("pdeathsignal.Signal.SIGWINCH");
    reveal_strlit("pdeathsignal.Signal.SIGIO");
    reveal_strlit("pdeathsignal.Signal.SIGPWR");
    reveal_strlit("pdeathsignal.Signal.SIGSYS");
}

} // verus!
