//! Process start identities: what tells one process from another that had the
//! same number before.
use vstd::prelude::*;

use crate::outside::{parse_uuid, uuid_value};
use crate::text::{
    all_digits, chars_of, decimal, decimal_text, is_digit_char, join2, parts_view, push_text,
    text_of, trim_chars, trim_text, words, words_of,
};

verus! {

/// Why the start identity of a Linux process cannot be told.
#[derive(Debug, Clone, Copy, PartialEq, Eq, Structural)]
pub enum StartIdentityError {
    /// The process status has no command terminator.
    NoCommand,
    /// The process status has no start ticks.
    NoTicks,
    /// The start ticks are no number.
    BadTicks,
    /// The boot identity is no UUID.
    BadBoot,
}

impl StartIdentityError {
    /// The error as a sentence.
    pub open spec fn sentence(self) -> Seq<char> {
        match self {
            StartIdentityError::NoCommand =>
                "/proc/self/stat omitted the process command terminator"@,
            StartIdentityError::NoTicks => "/proc/self/stat omitted process start ticks"@,
            StartIdentityError::BadTicks => "/proc/self/stat process start ticks are invalid"@,
            StartIdentityError::BadBoot => "Linux boot identity is invalid"@,
        }
    }

    /// The error as a sentence.
    pub fn message(&self) -> (r: &'static str)
        ensures
            r@ == self.sentence(),
    {
        match self {
            StartIdentityError::NoCommand =>
                "/proc/self/stat omitted the process command terminator",
            StartIdentityError::NoTicks => "/proc/self/stat omitted process start ticks",
            StartIdentityError::BadTicks => "/proc/self/stat process start ticks are invalid",
            StartIdentityError::BadBoot => "Linux boot identity is invalid",
        }
    }
}

/// What follows the last closing parenthesis.
pub open spec fn after_command(status: Seq<char>) -> Option<Seq<char>>
    decreases status.len(),
{
    if status.len() == 0 {
        None
    } else if status.last() == ')' {
        Some(Seq::empty())
    } else {
        match after_command(status.drop_last()) {
            Some(rest) => Some(rest.push(status.last())),
            None => None,
        }
    }
}

/// The twentieth word behind the command of a process status.
pub open spec fn start_ticks(status: Seq<char>) -> Result<Seq<char>, StartIdentityError> {
    match after_command(status) {
        None => Err(StartIdentityError::NoCommand),
        Some(rest) => {
            let fields = words(rest);
            if fields.len() < 20 {
                Err(StartIdentityError::NoTicks)
            } else if forall|i: int|
                0 <= i < fields[19].len() ==> is_digit_char(#[trigger] fields[19][i]) {
                Ok(fields[19])
            } else {
                Err(StartIdentityError::BadTicks)
            }
        },
    }
}

proof fn lemma_after_command(status: Seq<char>, from: int)
    requires
        0 <= from <= status.len(),
        forall|j: int| from <= j < status.len() ==> status[j] != ')',
        from > 0 ==> status[from - 1] == ')',
    ensures
        after_command(status) == if from > 0 {
            Some(status.skip(from))
        } else {
            None::<Seq<char>>
        },
    decreases status.len(),
{
    if status.len() > 0 {
        if from == status.len() {
            assert(status.skip(from) =~= Seq::<char>::empty());
        } else {
            assert(status[status.len() - 1] != ')');
            lemma_after_command(status.drop_last(), from);
            if from > 0 {
                assert(status.skip(from) =~= status.drop_last().skip(from).push(status.last()));
            }
        }
    }
}

fn command_rest(status: &Vec<char>) -> (r: Option<Vec<char>>)
    ensures
        match r {
            Some(rest) => after_command(status@) == Some(rest@),
            None => after_command(status@) is None,
        },
{
    let mut from: usize = status.len();
    while from > 0 && status[from - 1] != ')'
        invariant
            from <= status@.len(),
            forall|j: int| from <= j < status@.len() ==> status@[j] != ')',
        decreases from,
    {
        from -= 1;
    }
    proof {
        lemma_after_command(status@, from as int);
    }
    if from == 0 {
        return None;
    }
    let mut rest: Vec<char> = Vec::new();
    for i in from..status.len()
        invariant
            from <= status@.len(),
            rest@ == status@.subrange(from as int, i as int),
    {
        rest.push(status[i]);
    }
    assert(rest@ =~= status@.skip(from as int));
    Some(rest)
}

/// What identifies the start of a Linux process.
pub open spec fn linux_identity(status: Seq<char>, boot_id: Seq<char>, r: Result<String, StartIdentityError>) -> bool {
    match start_ticks(status) {
        Err(e) => r == Err::<String, StartIdentityError>(e),
        Ok(ticks) => {
            let boot = trim_text(boot_id);
            if uuid_value(boot) is None {
                r == Err::<String, StartIdentityError>(StartIdentityError::BadBoot)
            } else {
                r is Ok && r->Ok_0@ == "linux:"@ + boot + ":"@ + ticks
            }
        },
    }
}

/// The start identity of a Linux process: the boot and the start ticks.
pub fn linux_start_identity(status: &str, boot_id: &str) -> (r: Result<String, StartIdentityError>)
    ensures
        linux_identity(status@, boot_id@, r),
{
    let status_chars = chars_of(status);
    let rest = match command_rest(&status_chars) {
        Some(rest) => rest,
        None => {
            return Err(StartIdentityError::NoCommand);
        },
    };
    let fields = words_of(&rest);
    assert(parts_view(fields@).len() == fields@.len());
    if fields.len() < 20 {
        return Err(StartIdentityError::NoTicks);
    }
    let ticks = &fields[19];
    assert(parts_view(fields@)[19] == ticks@);
    if !all_digits(ticks) {
        return Err(StartIdentityError::BadTicks);
    }
    let boot = text_of(&trim_chars(&chars_of(boot_id)));
    if parse_uuid(boot.as_str()).is_none() {
        return Err(StartIdentityError::BadBoot);
    }
    let mut out = join2("linux:", boot.as_str());
    push_text(&mut out, ":");
    push_text(&mut out, text_of(ticks).as_str());
    Ok(out)
}

/// What identifies the start of a Windows process.
pub open spec fn windows_identity(high: u32, low: u32) -> Seq<char> {
    "windows:"@ + decimal_text((high as nat) * 0x1_0000_0000 + low as nat)
}

/// The start identity of a Windows process: its creation time in ticks.
pub fn windows_start_identity(high: u32, low: u32) -> (r: String)
    ensures
        r@ == windows_identity(high, low),
{
    let ticks: u128 = (high as u128) * 0x1_0000_0000 + low as u128;
    join2("windows:", decimal(ticks).as_str())
}

/// The decimal notation of `n`, filled up with zeros to at least six digits.
pub open spec fn six_digits(n: u64) -> Seq<char> {
    let digits = decimal_text(n as nat);
    if digits.len() < 6 {
        Seq::new((6 - digits.len()) as nat, |i: int| '0') + digits
    } else {
        digits
    }
}

fn padded(n: u64) -> (r: String)
    ensures
        r@ == six_digits(n),
{
    let digits = decimal(n as u128);
    let width: usize = chars_of(digits.as_str()).len();
    if width >= 6 {
        return digits;
    }
    let mut out = String::new();
    for i in width..6
        invariant
            width < 6,
            out@ == Seq::new((i - width) as nat, |k: int| '0'),
    {
        out.push('0');
        assert(out@ =~= Seq::new((i + 1 - width) as nat, |k: int| '0'));
    }
    push_text(&mut out, digits.as_str());
    out
}

/// What identifies the start of a macOS process.
pub open spec fn macos_identity(seconds: u64, microseconds: u64, r: Option<String>) -> bool {
    if seconds == 0 {
        r is None
    } else {
        r is Some && r->0@ == "macos:"@ + decimal_text(seconds as nat) + ":"@ + six_digits(
            microseconds,
        )
    }
}

/// The start identity of a macOS process: its start time in seconds and
/// microseconds. A process without a start time has none.
pub fn macos_start_identity(seconds: u64, microseconds: u64) -> (r: Option<String>)
    ensures
        macos_identity(seconds, microseconds, r),
{
    if seconds == 0 {
        return None;
    }
    let mut out = join2("macos:", decimal(seconds as u128).as_str());
    push_text(&mut out, ":");
    push_text(&mut out, padded(microseconds).as_str());
    Some(out)
}

/// How long a started process may take until the operating system shows it.
pub const LAUNCH_WAIT_MS: u64 = 2_000;

/// How long to pause before looking for a started process again.
pub const LAUNCH_PAUSE_MS: u64 = 20;

/// How long to pause before the next look, while there is time.
pub open spec fn pause_after(elapsed_ms: u64) -> Option<u64> {
    if elapsed_ms < LAUNCH_WAIT_MS {
        Some(LAUNCH_PAUSE_MS)
    } else {
        None
    }
}

/// How long to pause before looking again for a process that was started
/// `elapsed_ms` ago and has not been seen; `None` where it is given up.
pub fn launch_pause(elapsed_ms: u64) -> (r: Option<u64>)
    ensures
        r == pause_after(elapsed_ms),
{
    if elapsed_ms < LAUNCH_WAIT_MS {
        Some(LAUNCH_PAUSE_MS)
    } else {
        None
    }
}

} // verus!
