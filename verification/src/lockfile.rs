//! The instance-lock discovery record: the running tty instance publishes
//! `pid`, a newline, then its listening port at a well-known path; request
//! clients read it back without taking the lock. Port `0` is the sentinel
//! for "still initializing" and is polled a bounded number of times.

use vstd::prelude::*;
use vstd::string::StringExecFns;
use vstd::arithmetic::div_mod::lemma_fundamental_div_mod;

verus! {

/// Decimal digits.
pub open spec fn is_digit(c: char) -> bool {
    '0' <= c && c <= '9'
}

pub open spec fn digit_val(c: char) -> int {
    c as int - '0' as int
}

pub open spec fn digit_char(d: int) -> char {
    if d == 0 {
        '0'
    } else if d == 1 {
        '1'
    } else if d == 2 {
        '2'
    } else if d == 3 {
        '3'
    } else if d == 4 {
        '4'
    } else if d == 5 {
        '5'
    } else if d == 6 {
        '6'
    } else if d == 7 {
        '7'
    } else if d == 8 {
        '8'
    } else {
        '9'
    }
}

/// The canonical decimal numeral of a number: no sign, no leading zero.
pub open spec fn dec_rep(n: nat) -> Seq<char>
    decreases n,
{
    if n < 10 {
        seq![digit_char(n as int)]
    } else {
        dec_rep(n / 10).push(digit_char((n % 10) as int))
    }
}

pub open spec fn all_digits(s: Seq<char>) -> bool {
    forall|i: int| 0 <= i < s.len() ==> is_digit(#[trigger] s[i])
}

/// The number a digit string denotes.
pub open spec fn dec_val(s: Seq<char>) -> int
    decreases s.len(),
{
    if s.len() == 0 {
        0
    } else {
        dec_val(s.drop_last()) * 10 + digit_val(s.last())
    }
}

/// A string this codec accepts as a numeral: nonempty, digits only, and no
/// leading zero (so every value has exactly one accepted spelling).
pub open spec fn valid_dec(s: Seq<char>) -> bool {
    s.len() > 0 && all_digits(s) && (s[0] != '0' || s.len() == 1)
}

proof fn lemma_digit_char_val(d: int)
    requires
        0 <= d < 10,
    ensures
        is_digit(digit_char(d)),
        digit_val(digit_char(d)) == d,
        (digit_char(d) == '0') <==> (d == 0),
{
}

proof fn lemma_dec_val_nonneg(s: Seq<char>)
    requires
        all_digits(s),
    ensures
        dec_val(s) >= 0,
    decreases s.len(),
{
    if s.len() > 0 {
        assert(all_digits(s.drop_last()));
        lemma_dec_val_nonneg(s.drop_last());
        assert(is_digit(s.last()));
    }
}

proof fn lemma_dec_val_push(s: Seq<char>, c: char)
    ensures
        dec_val(s.push(c)) == dec_val(s) * 10 + digit_val(c),
{
    assert(s.push(c).drop_last() =~= s);
    assert(s.push(c).last() == c);
}

/// The canonical numeral is made of digits and starts with `'0'` only for
/// the number zero itself, so it is always a valid numeral.
pub proof fn lemma_dec_rep_valid(n: nat)
    ensures
        all_digits(dec_rep(n)),
        dec_rep(n).len() >= 1,
        (dec_rep(n)[0] == '0') <==> (n == 0),
        valid_dec(dec_rep(n)),
    decreases n,
{
    if n < 10 {
        lemma_digit_char_val(n as int);
        assert(all_digits(dec_rep(n))) by {
            assert(dec_rep(n) =~= seq![digit_char(n as int)]);
        };
    } else {
        lemma_dec_rep_valid(n / 10);
        lemma_digit_char_val((n % 10) as int);
        let prefix = dec_rep(n / 10);
        let whole = prefix.push(digit_char((n % 10) as int));
        assert(whole[0] == prefix[0]);
        assert(all_digits(whole)) by {
            assert(forall|i: int|
                0 <= i < whole.len() ==> whole[i] == (if i < prefix.len() {
                    prefix[i]
                } else {
                    digit_char((n % 10) as int)
                }));
        };
        assert(n / 10 >= 1);
    }
}

/// Reading the canonical numeral of `n` back gives `n`.
pub proof fn lemma_dec_rep_val(n: nat)
    ensures
        dec_val(dec_rep(n)) == n,
    decreases n,
{
    if n < 10 {
        lemma_digit_char_val(n as int);
        let s = dec_rep(n);
        assert(s == seq![digit_char(n as int)]);
        assert(s.drop_last() =~= Seq::<char>::empty());
        assert(s.last() == digit_char(n as int));
        assert(dec_val(Seq::<char>::empty()) == 0);
        assert(dec_val(s) == digit_val(digit_char(n as int)));
    } else {
        lemma_dec_rep_val(n / 10);
        lemma_digit_char_val((n % 10) as int);
        lemma_dec_val_push(dec_rep(n / 10), digit_char((n % 10) as int));
        assert(dec_val(dec_rep(n)) == dec_val(dec_rep(n / 10)) * 10 + digit_val(
            digit_char((n % 10) as int),
        ));
        assert(dec_val(dec_rep(n)) == (n / 10) * 10 + (n % 10));
        lemma_fundamental_div_mod(n as int, 10);
        assert((n / 10) * 10 + (n % 10) == n);
    }
}

proof fn lemma_dec_val_positive(s: Seq<char>)
    requires
        all_digits(s),
        s.len() >= 1,
        s[0] != '0',
    ensures
        dec_val(s) >= 1,
    decreases s.len(),
{
    if s.len() == 1 {
        assert(s.drop_last() =~= Seq::<char>::empty());
        assert(s.last() == s[0]);
        assert(is_digit(s[0]));
        assert(dec_val(Seq::<char>::empty()) == 0);
        assert(dec_val(s) == digit_val(s[0]));
        assert(digit_val(s[0]) >= 1);
    } else {
        assert(all_digits(s.drop_last()));
        assert(s.drop_last()[0] == s[0]);
        lemma_dec_val_positive(s.drop_last());
        assert(is_digit(s.last()));
    }
}

/// A valid numeral is the canonical one of its value: each number has
/// exactly one accepted spelling, so the record codec is a bijection.
pub proof fn lemma_dec_canonical(s: Seq<char>)
    requires
        valid_dec(s),
    ensures
        s == dec_rep(dec_val(s) as nat),
    decreases s.len(),
{
    lemma_dec_val_nonneg(s);
    if s.len() == 1 {
        assert(is_digit(s[0]));
        let d = digit_val(s[0]);
        assert(s.drop_last() =~= Seq::<char>::empty());
        assert(s.last() == s[0]);
        assert(dec_val(Seq::<char>::empty()) == 0);
        assert(dec_val(s) == d);
        assert(digit_char(d) == s[0]);
        assert(dec_rep(d as nat) =~= seq![digit_char(d)]);
        assert(s =~= seq![s[0]]);
    } else {
        let prefix = s.drop_last();
        let c = s.last();
        assert(is_digit(c));
        let d = digit_val(c);
        assert(all_digits(prefix));
        assert(prefix[0] == s[0]);
        assert(valid_dec(prefix));
        lemma_dec_val_positive(prefix);
        lemma_dec_canonical(prefix);
        let q = dec_val(prefix);
        let n = dec_val(s);
        assert(s =~= prefix.push(c));
        lemma_dec_val_push(prefix, c);
        assert(n == q * 10 + d);
        assert(n / 10 == q && n % 10 == d) by (nonlinear_arith)
            requires
                n == q * 10 + d,
                0 <= d < 10,
                q >= 1,
        ;
        assert(n >= 10) by (nonlinear_arith)
            requires
                n == q * 10 + d,
                0 <= d,
                q >= 1,
        ;
        assert(dec_rep(n as nat) == dec_rep((n / 10) as nat).push(digit_char((n % 10) as int)));
        assert(digit_char(d) == c);
    }
}

proof fn lemma_dec_val_prefix_mono(s: Seq<char>, i: int)
    requires
        all_digits(s),
        0 <= i <= s.len(),
    ensures
        dec_val(s.subrange(0, i)) <= dec_val(s),
    decreases s.len() - i,
{
    if i == s.len() {
        assert(s.subrange(0, i) =~= s);
    } else {
        lemma_dec_val_prefix_mono(s, i + 1);
        let shorter = s.subrange(0, i);
        let longer = s.subrange(0, i + 1);
        assert(longer =~= shorter.push(s[i]));
        lemma_dec_val_push(shorter, s[i]);
        assert(all_digits(shorter));
        lemma_dec_val_nonneg(shorter);
        assert(is_digit(s[i]));
    }
}

fn digit_str(d: u64) -> (s: &'static str)
    requires
        d < 10,
    ensures
        s@ == seq![digit_char(d as int)],
{
    let s: &'static str = if d == 0 {
        "0"
    } else if d == 1 {
        "1"
    } else if d == 2 {
        "2"
    } else if d == 3 {
        "3"
    } else if d == 4 {
        "4"
    } else if d == 5 {
        "5"
    } else if d == 6 {
        "6"
    } else if d == 7 {
        "7"
    } else if d == 8 {
        "8"
    } else {
        "9"
    };
    proof {
        reveal_strlit("0");
        reveal_strlit("1");
        reveal_strlit("2");
        reveal_strlit("3");
        reveal_strlit("4");
        reveal_strlit("5");
        reveal_strlit("6");
        reveal_strlit("7");
        reveal_strlit("8");
        reveal_strlit("9");
        assert(s@ =~= seq![digit_char(d as int)]);
    }
    s
}

/// Render a number as its canonical decimal numeral.
pub fn u64_to_dec(n: u64) -> (s: String)
    ensures
        s@ == dec_rep(n as nat),
    decreases n,
{
    if n < 10 {
        let s = String::from_str(digit_str(n));
        proof {
            assert(s@ =~= dec_rep(n as nat));
        }
        s
    } else {
        let prefix = u64_to_dec(n / 10);
        let s = prefix.concat(digit_str(n % 10));
        proof {
            assert(s@ =~= dec_rep((n / 10) as nat).push(digit_char((n as nat % 10) as int)));
        }
        s
    }
}

/// Read a decimal numeral: the number it denotes, if the string is a valid
/// numeral whose value fits; nothing otherwise.
pub fn parse_dec(s: &str) -> (r: Option<u64>)
    ensures
        r matches Some(v) ==> valid_dec(s@) && dec_val(s@) == v,
        r is None ==> !valid_dec(s@) || dec_val(s@) > u64::MAX,
        valid_dec(s@) && dec_val(s@) <= u64::MAX ==> r is Some,
{
    let len = s.unicode_len();
    if len == 0 {
        return None;
    }
    if len > 1 && s.get_char(0) == '0' {
        return None;
    }
    let mut acc: u64 = 0;
    let mut i: usize = 0;
    while i < len
        invariant
            len == s@.len(),
            0 <= i <= len,
            len > 0,
            len > 1 ==> s@[0] != '0',
            all_digits(s@.subrange(0, i as int)),
            acc == dec_val(s@.subrange(0, i as int)),
        decreases len - i,
    {
        let c = s.get_char(i);
        let cv = c as u32;
        if !(48 <= cv && cv <= 57) {
            proof {
                assert(!is_digit(s@[i as int]));
                assert(!all_digits(s@));
            }
            return None;
        }
        let d = (cv - 48) as u64;
        proof {
            assert(d == digit_val(s@[i as int]));
        }
        let limit = (u64::MAX - d) / 10;
        proof {
            lemma_fundamental_div_mod((u64::MAX - d) as int, 10);
            assert(s@.subrange(0, i as int + 1) =~= s@.subrange(0, i as int).push(s@[i as int]));
            lemma_dec_val_push(s@.subrange(0, i as int), s@[i as int]);
        }
        if acc > limit {
            proof {
                assert(dec_val(s@.subrange(0, i as int + 1)) > u64::MAX);
                if all_digits(s@) {
                    lemma_dec_val_prefix_mono(s@, i as int + 1);
                    assert(dec_val(s@) > u64::MAX);
                }
            }
            return None;
        }
        acc = acc * 10 + d;
        i += 1;
    }
    proof {
        assert(s@.subrange(0, len as int) =~= s@);
    }
    Some(acc)
}

/// Index of the first newline in a string, if any.
pub open spec fn first_nl(s: Seq<char>) -> Option<int>
    decreases s.len(),
{
    if s.len() == 0 {
        None
    } else if s[0] == '\n' {
        Some(0)
    } else {
        match first_nl(s.drop_first()) {
            None => None,
            Some(i) => Some(i + 1),
        }
    }
}

proof fn lemma_first_nl_at(s: Seq<char>, i: int)
    requires
        0 <= i < s.len(),
        s[i] == '\n',
        forall|j: int| 0 <= j < i ==> s[j] != '\n',
    ensures
        first_nl(s) == Some(i),
    decreases i,
{
    if i == 0 {
    } else {
        lemma_first_nl_at(s.drop_first(), i - 1);
    }
}

proof fn lemma_first_nl_none(s: Seq<char>)
    requires
        forall|j: int| 0 <= j < s.len() ==> s[j] != '\n',
    ensures
        first_nl(s) is None,
    decreases s.len(),
{
    if s.len() > 0 {
        lemma_first_nl_none(s.drop_first());
    }
}

/// The record a tty instance publishes: its process id and listening port.
#[derive(Clone, Copy, Debug, PartialEq, Eq, Structural)]
pub struct LockRecord {
    pub pid: u32,
    pub port: u16,
}

/// Why a discovery record was rejected.
#[derive(Clone, Copy, Debug, PartialEq, Eq, Structural)]
pub enum LockfileError {
    /// No newline, so no port field at all.
    MissingPort,
    /// The process-id field is not a numeral that fits.
    InvalidPid,
    /// The port field is not a numeral that fits.
    InvalidPort,
}

/// The record text for a process id and port: pid numeral, newline, port
/// numeral.
pub open spec fn spec_record(pid: nat, port: nat) -> Seq<char> {
    dec_rep(pid) + seq!['\n'] + dec_rep(port)
}

/// What parsing a record text yields.
pub open spec fn spec_parse_record(s: Seq<char>) -> Result<LockRecord, LockfileError> {
    match first_nl(s) {
        None => Err(LockfileError::MissingPort),
        Some(i) => {
            let pid_part = s.subrange(0, i);
            let port_part = s.subrange(i + 1, s.len() as int);
            if !(valid_dec(pid_part) && dec_val(pid_part) <= u32::MAX) {
                Err(LockfileError::InvalidPid)
            } else if !(valid_dec(port_part) && dec_val(port_part) <= u16::MAX) {
                Err(LockfileError::InvalidPort)
            } else {
                Ok(
                    LockRecord {
                        pid: dec_val(pid_part) as u32,
                        port: dec_val(port_part) as u16,
                    },
                )
            }
        },
    }
}

/// Render the discovery record for this process id and port.
pub fn encode_record(pid: u32, port: u16) -> (s: String)
    ensures
        s@ == spec_record(pid as nat, port as nat),
{
    let s = u64_to_dec(pid as u64).concat("\n").concat(u64_to_dec(port as u64).as_str());
    proof {
        reveal_strlit("\n");
        assert("\n"@ =~= seq!['\n']);
        assert(s@ =~= spec_record(pid as nat, port as nat));
    }
    s
}

/// Read a discovery record back: the pid and port it holds, or what is
/// wrong with it. Accepts exactly the texts `encode_record` writes.
pub fn parse_record(s: &str) -> (r: Result<LockRecord, LockfileError>)
    ensures
        r == spec_parse_record(s@),
{
    let len = s.unicode_len();
    let mut i: usize = 0;
    while i < len
        invariant
            len == s@.len(),
            0 <= i <= len,
            forall|j: int| 0 <= j < i ==> s@[j] != '\n',
        decreases len - i,
    {
        if s.get_char(i) == '\n' {
            proof {
                lemma_first_nl_at(s@, i as int);
            }
            let pid_str = s.substring_char(0, i);
            let port_str = s.substring_char(i + 1, len);
            let ghost pid_part = s@.subrange(0, i as int);
            let ghost port_part = s@.subrange(i as int + 1, len as int);
            let pid: u32 = match parse_dec(pid_str) {
                Some(v) => {
                    if v <= 0xFFFF_FFFF {
                        proof {
                            lemma_dec_val_nonneg(pid_part);
                        }
                        v as u32
                    } else {
                        proof {
                            assert(!(valid_dec(pid_part) && dec_val(pid_part) <= u32::MAX));
                        }
                        return Err(LockfileError::InvalidPid);
                    }
                },
                None => {
                    proof {
                        assert(!(valid_dec(pid_part) && dec_val(pid_part) <= u32::MAX));
                    }
                    return Err(LockfileError::InvalidPid);
                },
            };
            let port: u16 = match parse_dec(port_str) {
                Some(v) => {
                    if v <= 0xFFFF {
                        proof {
                            lemma_dec_val_nonneg(port_part);
                        }
                        v as u16
                    } else {
                        proof {
                            assert(!(valid_dec(port_part) && dec_val(port_part) <= u16::MAX));
                        }
                        return Err(LockfileError::InvalidPort);
                    }
                },
                None => {
                    proof {
                        assert(!(valid_dec(port_part) && dec_val(port_part) <= u16::MAX));
                    }
                    return Err(LockfileError::InvalidPort);
                },
            };
            return Ok(LockRecord { pid, port });
        }
        i += 1;
    }
    proof {
        lemma_first_nl_none(s@);
    }
    Err(LockfileError::MissingPort)
}

/// Writing a record and reading it back yields the same pid and port: a
/// reader that sees a complete record never misreads it.
pub proof fn lemma_record_round_trip(pid: u32, port: u16)
    ensures
        spec_parse_record(spec_record(pid as nat, port as nat)) == Ok::<LockRecord, LockfileError>(
            LockRecord { pid, port },
        ),
{
    let s = spec_record(pid as nat, port as nat);
    let pid_rep = dec_rep(pid as nat);
    let port_rep = dec_rep(port as nat);
    lemma_dec_rep_valid(pid as nat);
    lemma_dec_rep_valid(port as nat);
    lemma_dec_rep_val(pid as nat);
    lemma_dec_rep_val(port as nat);
    let i = pid_rep.len() as int;
    assert(s[i] == '\n');
    assert(forall|j: int| 0 <= j < i ==> s[j] == pid_rep[j] && is_digit(#[trigger] pid_rep[j]));
    lemma_first_nl_at(s, i);
    assert(s.subrange(0, i) =~= pid_rep);
    assert(s.subrange(i + 1, s.len() as int) =~= port_rep);
}

/// How many times a request client reads the record while the port is the
/// `0` "still initializing" sentinel before it concludes failure.
pub open spec fn discovery_attempts() -> int {
    4
}

/// What one discovery read leads to.
#[derive(Clone, Copy, Debug, PartialEq, Eq, Structural)]
pub enum PollStep {
    /// A nonzero port was observed: use it immediately.
    Ready(u16),
    /// Port `0`: sleep briefly and read again.
    RetryAfterDelay,
    /// Port `0` on the last allowed attempt: the instance probably crashed
    /// before initializing fully.
    GiveUp,
}

/// Decide after the `attempt`-th read (counted from zero) observed `port`.
pub fn discovery_step(port: u16, attempt: usize) -> (r: PollStep)
    requires
        attempt < discovery_attempts(),
    ensures
        port != 0 ==> r == PollStep::Ready(port),
        port == 0 && attempt + 1 < discovery_attempts() ==> r == PollStep::RetryAfterDelay,
        port == 0 && attempt + 1 == discovery_attempts() ==> r == PollStep::GiveUp,
{
    if port != 0 {
        PollStep::Ready(port)
    } else if attempt + 1 < 4 {
        PollStep::RetryAfterDelay
    } else {
        PollStep::GiveUp
    }
}

/// The first read, if any, that observes a nonzero port.
pub open spec fn first_ready(observed: Seq<u16>) -> Option<int>
    decreases observed.len(),
{
    if observed.len() == 0 {
        None
    } else if observed[0] != 0 {
        Some(0)
    } else {
        match first_ready(observed.drop_first()) {
            None => None,
            Some(i) => Some(i + 1),
        }
    }
}

/// The whole discovery poll over the ports the reads would observe, in
/// order: the first nonzero port among the bounded number of attempts is
/// returned immediately; all-zero reads exhaust the attempts and fail.
pub fn resolve_discovery(observed: &Vec<u16>) -> (r: Option<u16>)
    requires
        observed@.len() >= discovery_attempts(),
    ensures
        match first_ready(observed@.subrange(0, discovery_attempts())) {
            Some(i) => r == Some(observed@[i]),
            None => r is None,
        },
{
    let ghost window = observed@.subrange(0, discovery_attempts());
    let mut i: usize = 0;
    while i < 4
        invariant
            observed@.len() >= 4,
            window == observed@.subrange(0, 4),
            0 <= i <= 4,
            forall|j: int| 0 <= j < i ==> observed@[j] == 0,
        decreases 4 - i,
    {
        if observed[i] != 0 {
            proof {
                lemma_first_ready_at(window, i as int);
            }
            return Some(observed[i]);
        }
        i += 1;
    }
    proof {
        lemma_first_ready_none(window);
    }
    None
}

/// How a request client finds the tty instance's port.
#[derive(Clone, Copy, Debug, PartialEq, Eq, Structural)]
pub enum ClientPortPlan {
    /// Probe the lock, then read the discovery record and poll it.
    DiscoverFromLockfile,
    /// Use this port as given, bypassing discovery.
    UsePort(u16),
}

/// Skipping the lock check without naming a port leaves the client with no
/// way to find the instance.
#[derive(Clone, Copy, Debug, PartialEq, Eq, Structural)]
pub enum ClientPortError {
    NoPortWithoutLockfile,
}

/// Decide how the request client reaches the instance: an explicit port
/// override always wins; without one the lockfile is consulted, unless its
/// check is being skipped, which is an error with no port to fall back on.
pub fn client_port_plan(port_override: Option<u16>, skip_lock_checks: bool) -> (r: Result<
    ClientPortPlan,
    ClientPortError,
>)
    ensures
        port_override matches Some(p) ==> r == Ok::<ClientPortPlan, ClientPortError>(
            ClientPortPlan::UsePort(p),
        ),
        port_override is None && !skip_lock_checks ==> r == Ok::<ClientPortPlan, ClientPortError>(
            ClientPortPlan::DiscoverFromLockfile,
        ),
        port_override is None && skip_lock_checks ==> r == Err::<ClientPortPlan, ClientPortError>(
            ClientPortError::NoPortWithoutLockfile,
        ),
{
    match port_override {
        Some(p) => Ok(ClientPortPlan::UsePort(p)),
        None => if skip_lock_checks {
            Err(ClientPortError::NoPortWithoutLockfile)
        } else {
            Ok(ClientPortPlan::DiscoverFromLockfile)
        },
    }
}

proof fn lemma_first_ready_at(s: Seq<u16>, i: int)
    requires
        0 <= i < s.len(),
        s[i] != 0,
        forall|j: int| 0 <= j < i ==> s[j] == 0,
    ensures
        first_ready(s) == Some(i),
    decreases i,
{
    if i == 0 {
    } else {
        lemma_first_ready_at(s.drop_first(), i - 1);
    }
}

proof fn lemma_first_ready_none(s: Seq<u16>)
    requires
        forall|j: int| 0 <= j < s.len() ==> s[j] == 0,
    ensures
        first_ready(s) is None,
    decreases s.len(),
{
    if s.len() > 0 {
        lemma_first_ready_none(s.drop_first());
    }
}

} // verus!
