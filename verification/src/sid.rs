//! Account-identity resolution over an acquired security descriptor.
//!
//! Where the platform has no numeric id-to-name mapping, the owner and
//! group of an entry are security identifiers (SIDs) read out of a
//! security descriptor that the security subsystem allocates for a path
//! (`GetNamedSecurityInfoW`). The SIDs are weak references into the
//! descriptor's memory: they are valid only while the descriptor is
//! alive, and the descriptor must be handed back (`LocalFree`) exactly
//! once, on every path out of its owner's lifetime.
//!
//! Turning a SID into an account name takes a two-phase protocol
//! (`LookupAccountSidW`): a probe call with null buffers that is
//! expected to fail while reporting the needed character counts, then a
//! fill call into buffers of exactly those sizes. The subsystem writes
//! UTF-16 code units, which are decoded with replacement characters for
//! malformed sequences.
//!
//! The platform calls themselves cannot be spoken for here; the layer
//! that makes them hands their raw outcomes to this module as plain
//! values ([`ProbeOutcome`], [`FillOutcome`], and the three pointers of
//! an acquisition), and performs one `LocalFree` for every handle this
//! module appends to its release log. Everything decided from those
//! outcomes is verified.

use vstd::prelude::*;
use vstd::string::StringExecFns;
use vstd::utf8::char_u32_cast;

verus! {

/// Why a resolution failed.
#[derive(PartialEq, Eq, Copy, Clone, Debug)]
pub enum Error {
    /// A SID was unset, or the probe reported an empty name or domain.
    NotFound,
    /// The security descriptor itself could not be read.
    PermissionDenied,
    /// The lookup primitive misbehaved or reported a last-error code;
    /// the payload is that code, and zero where the failure was a
    /// protocol violation rather than a reported error.
    InvalidInput(u32),
}

/// A resolved account: its name and the domain it belongs to.
#[derive(Debug)]
pub struct AccountName {
    pub name: String,
    pub domain: String,
}

/// What the probe call reported: whether it returned success, and the
/// character counts it wrote for the name and domain buffers.
#[derive(PartialEq, Eq, Copy, Clone, Debug)]
pub struct ProbeOutcome {
    pub succeeded: bool,
    pub name_count: u32,
    pub domain_count: u32,
}

/// What the fill call reported: whether it returned success, the
/// last-error code read after a failure, and the UTF-16 code units the
/// buffers held afterwards, truncated to the counts the call wrote.
#[derive(Debug)]
pub struct FillOutcome {
    pub succeeded: bool,
    pub last_error: u32,
    pub name_units: Vec<u16>,
    pub domain_units: Vec<u16>,
}

/// The most probe/fill rounds attempted before giving up: a second
/// round guards against the account database changing between the two
/// calls of the first.
pub const MAX_LOOKUP_ATTEMPTS: usize = 2;

/// The last-error code with which the fill call reports that the
/// buffers it was given no longer suffice.
pub const ERROR_INSUFFICIENT_BUFFER: u32 = 122;

// ---------------------------------------------------------------------
// UTF-16 decoding with replacement characters.
// ---------------------------------------------------------------------

/// A leading (high) surrogate code unit.
pub open spec fn is_high_surrogate(u: u16) -> bool {
    0xD800 <= u < 0xDC00
}

/// A trailing (low) surrogate code unit.
pub open spec fn is_low_surrogate(u: u16) -> bool {
    0xDC00 <= u < 0xE000
}

/// The scalar value encoded by a surrogate pair.
pub open spec fn combine_surrogates(hi: u16, lo: u16) -> int {
    0x10000 + (hi - 0xD800) * 0x400 + (lo - 0xDC00)
}

/// The characters that a sequence of UTF-16 code units decodes to, with
/// every unpaired surrogate replaced by one replacement character.
pub open spec fn utf16_lossy(s: Seq<u16>) -> Seq<char>
    decreases s.len(),
{
    if s.len() == 0 {
        Seq::empty()
    } else if is_high_surrogate(s[0]) && s.len() >= 2 && is_low_surrogate(s[1]) {
        seq![combine_surrogates(s[0], s[1]) as char] + utf16_lossy(s.skip(2))
    } else if is_high_surrogate(s[0]) || is_low_surrogate(s[0]) {
        seq!['\u{FFFD}'] + utf16_lossy(s.skip(1))
    } else {
        seq![s[0] as char] + utf16_lossy(s.skip(1))
    }
}

/// How many UTF-16 code units one character occupies.
pub open spec fn char_utf16_units(c: char) -> int {
    if (c as u32) < 0x10000 {
        1
    } else {
        2
    }
}

/// How many UTF-16 code units a character sequence occupies.
pub open spec fn utf16_len(cs: Seq<char>) -> int
    decreases cs.len(),
{
    if cs.len() == 0 {
        0
    } else {
        char_utf16_units(cs[0]) + utf16_len(cs.skip(1))
    }
}

/// Lossy decoding consumes every code unit exactly once: the decoded
/// characters occupy exactly as many UTF-16 code units as were given,
/// replacement characters included.
pub proof fn lemma_utf16_lossy_len(s: Seq<u16>)
    ensures
        utf16_len(utf16_lossy(s)) == s.len(),
    decreases s.len(),
{
    if s.len() == 0 {
    } else if is_high_surrogate(s[0]) && s.len() >= 2 && is_low_surrogate(s[1]) {
        lemma_utf16_lossy_len(s.skip(2));
        let c = combine_surrogates(s[0], s[1]) as char;
        assert(0x10000 <= combine_surrogates(s[0], s[1]) < 0x110000);
        assert(c as u32 == combine_surrogates(s[0], s[1]));
        let cs = utf16_lossy(s);
        assert(cs == seq![c] + utf16_lossy(s.skip(2)));
        assert(cs.skip(1) =~= utf16_lossy(s.skip(2)));
        assert(char_utf16_units(c) == 2);
    } else if is_high_surrogate(s[0]) || is_low_surrogate(s[0]) {
        lemma_utf16_lossy_len(s.skip(1));
        let cs = utf16_lossy(s);
        assert(cs.skip(1) =~= utf16_lossy(s.skip(1)));
        assert(('\u{FFFD}' as u32) == 0xFFFD);
    } else {
        lemma_utf16_lossy_len(s.skip(1));
        let c = s[0] as char;
        assert(c as u32 == s[0] as u32);
        let cs = utf16_lossy(s);
        assert(cs.skip(1) =~= utf16_lossy(s.skip(1)));
        assert(char_utf16_units(c) == 1);
    }
}

/// Relies on `char::from_u32`: it returns `Some` exactly for the
/// Unicode scalar values, which the precondition restricts `u` to.
#[verifier::external_body]
fn char_from_scalar(u: u32) -> (c: char)
    requires
        u < 0xD800 || (0xE000 <= u && u < 0x110000),
    ensures
        c as u32 == u,
{
    match char::from_u32(u) {
        Some(c) => c,
        None => '\u{FFFD}',
    }
}

/// Relies on `String`'s `FromIterator` over `char`: collecting yields
/// the string of exactly the given characters, in order.
#[verifier::external_body]
fn chars_to_string(v: &Vec<char>) -> (r: String)
    ensures
        r@ == v@,
{
    v.iter().copied().collect()
}

/// Decode UTF-16 code units to text, substituting a replacement
/// character for every unpaired surrogate instead of failing.
pub fn decode_utf16_lossy(units: &Vec<u16>) -> (r: String)
    ensures
        r@ == utf16_lossy(units@),
{
    let ghost whole: Seq<u16> = units@;
    let mut out: Vec<char> = Vec::new();
    let mut i: usize = 0;
    proof {
        assert(whole.skip(0) =~= whole);
        assert(out@ + utf16_lossy(whole) =~= utf16_lossy(whole));
    }
    while i < units.len()
        invariant
            i <= whole.len(),
            units@ == whole,
            out@ + utf16_lossy(whole.skip(i as int)) == utf16_lossy(whole),
        decreases whole.len() - i,
    {
        let ghost rest: Seq<u16> = whole.skip(i as int);
        let u: u16 = units[i];
        assert(rest[0] == whole[i as int]);
        if 0xD800 <= u && u < 0xDC00 && i + 1 < units.len() {
            let lo: u16 = units[i + 1];
            assert(rest[1] == whole[i as int + 1]);
            if 0xDC00 <= lo && lo < 0xE000 {
                let scalar: u32 = 0x10000 + ((u - 0xD800) as u32) * 0x400 + ((lo - 0xDC00) as u32);
                assert(scalar == combine_surrogates(u, lo));
                let c = char_from_scalar(scalar);
                proof {
                    char_u32_cast(c, scalar);
                    assert(c == combine_surrogates(rest[0], rest[1]) as char);
                }
                out.push(c);
                proof {
                    assert(utf16_lossy(rest) == seq![c] + utf16_lossy(rest.skip(2)));
                    assert(rest.skip(2) =~= whole.skip(i as int + 2));
                    assert(out@ + utf16_lossy(whole.skip(i as int + 2)) =~= utf16_lossy(whole));
                }
                i = i + 2;
            } else {
                out.push('\u{FFFD}');
                proof {
                    assert(utf16_lossy(rest) == seq!['\u{FFFD}'] + utf16_lossy(rest.skip(1)));
                    assert(rest.skip(1) =~= whole.skip(i as int + 1));
                    assert(out@ + utf16_lossy(whole.skip(i as int + 1)) =~= utf16_lossy(whole));
                }
                i = i + 1;
            }
        } else if 0xD800 <= u && u < 0xE000 {
            out.push('\u{FFFD}');
            proof {
                assert(utf16_lossy(rest) == seq!['\u{FFFD}'] + utf16_lossy(rest.skip(1)));
                assert(rest.skip(1) =~= whole.skip(i as int + 1));
                assert(out@ + utf16_lossy(whole.skip(i as int + 1)) =~= utf16_lossy(whole));
            }
            i = i + 1;
        } else {
            let c = char_from_scalar(u as u32);
            proof {
                char_u32_cast(c, u as u32);
                assert(c == rest[0] as char);
            }
            out.push(c);
            proof {
                assert(utf16_lossy(rest) == seq![c] + utf16_lossy(rest.skip(1)));
                assert(rest.skip(1) =~= whole.skip(i as int + 1));
                assert(out@ + utf16_lossy(whole.skip(i as int + 1)) =~= utf16_lossy(whole));
            }
            i = i + 1;
        }
    }
    proof {
        assert(whole.skip(i as int) =~= Seq::<u16>::empty());
        assert(out@ + utf16_lossy(whole.skip(i as int)) =~= out@);
    }
    chars_to_string(&out)
}

// ---------------------------------------------------------------------
// The lookup protocol over recorded outcomes.
// ---------------------------------------------------------------------

/// The result that the probe/fill protocol computes from the outcomes
/// the security subsystem returns, starting at the given attempt: a
/// probe that succeeds against null buffers is distrusted, an empty
/// probed count means the SID was bad, a successful fill is decoded,
/// and an insufficient-buffer failure earns one further attempt.
pub open spec fn lookup_outcome(
    probes: Seq<ProbeOutcome>,
    fills: Seq<FillOutcome>,
    attempt: int,
) -> Result<(Seq<char>, Seq<char>), Error>
    decreases MAX_LOOKUP_ATTEMPTS - attempt,
{
    let p = probes[attempt];
    if p.succeeded {
        Err(Error::InvalidInput(0))
    } else if p.name_count == 0 || p.domain_count == 0 {
        Err(Error::NotFound)
    } else {
        let f = fills[attempt];
        if f.succeeded {
            Ok((utf16_lossy(f.name_units@), utf16_lossy(f.domain_units@)))
        } else if f.last_error == ERROR_INSUFFICIENT_BUFFER && attempt + 1
            < MAX_LOOKUP_ATTEMPTS as int {
            lookup_outcome(probes, fills, attempt + 1)
        } else {
            Err(Error::InvalidInput(f.last_error))
        }
    }
}

// ---------------------------------------------------------------------
// The descriptor and its lifetime.
// ---------------------------------------------------------------------

/// An acquired security descriptor together with the owner and group
/// SIDs it contains. The three handles are the pointers the acquisition
/// call wrote, as plain integers, with zero for a null pointer.
///
/// The value exclusively owns the descriptor allocation. The SIDs point
/// into it, so the accessors demand that it has not been released, and
/// [`NamedSecurityInfo::release`] can be called only once.
pub struct NamedSecurityInfo {
    owner: u64,
    group: u64,
    descriptor: u64,
    released: bool,
}

impl NamedSecurityInfo {
    /// The owner SID handle.
    pub closed spec fn spec_owner(self) -> u64 {
        self.owner
    }

    /// The group SID handle.
    pub closed spec fn spec_group(self) -> u64 {
        self.group
    }

    /// The descriptor handle.
    pub closed spec fn spec_descriptor(self) -> u64 {
        self.descriptor
    }

    /// Whether the descriptor has already been handed back.
    pub closed spec fn is_released(self) -> bool {
        self.released
    }

    /// A live value holds three non-null handles.
    pub open spec fn wf(self) -> bool {
        self.spec_owner() != 0 && self.spec_group() != 0 && self.spec_descriptor() != 0
    }

    /// Validate what an acquisition call wrote: a null owner or group
    /// SID means the account was not found, a null descriptor means its
    /// security metadata was not readable. When validation fails after
    /// the descriptor was allocated, the descriptor is handed back at
    /// once: its handle is appended to `releases`, whose consumer
    /// performs one `LocalFree` per entry.
    pub fn from_acquisition(
        owner: u64,
        group: u64,
        descriptor: u64,
        releases: &mut Vec<u64>,
    ) -> (r: Result<NamedSecurityInfo, Error>)
        ensures
            (owner == 0 || group == 0) ==> r == Err::<NamedSecurityInfo, Error>(Error::NotFound),
            (owner != 0 && group != 0 && descriptor == 0) ==> r == Err::<NamedSecurityInfo, Error>(
                Error::PermissionDenied,
            ),
            (owner != 0 && group != 0 && descriptor != 0) ==> r is Ok,
            r is Err && descriptor != 0 ==> final(releases)@ == old(releases)@.push(descriptor),
            r is Err && descriptor == 0 ==> final(releases)@ == old(releases)@,
            r is Ok ==> {
                &&& final(releases)@ == old(releases)@
                &&& owner != 0 && group != 0 && descriptor != 0
                &&& r->Ok_0.spec_owner() == owner
                &&& r->Ok_0.spec_group() == group
                &&& r->Ok_0.spec_descriptor() == descriptor
                &&& !r->Ok_0.is_released()
                &&& r->Ok_0.wf()
            },
    {
        if owner == 0 || group == 0 {
            if descriptor != 0 {
                releases.push(descriptor);
            }
            Err(Error::NotFound)
        } else if descriptor == 0 {
            Err(Error::PermissionDenied)
        } else {
            Ok(NamedSecurityInfo { owner, group, descriptor, released: false })
        }
    }

    /// Hand the descriptor back: append its handle to the release log,
    /// exactly once per acquired descriptor.
    pub fn release(&mut self, releases: &mut Vec<u64>)
        requires
            !old(self).is_released(),
        ensures
            final(self).is_released(),
            final(self).spec_owner() == old(self).spec_owner(),
            final(self).spec_group() == old(self).spec_group(),
            final(self).spec_descriptor() == old(self).spec_descriptor(),
            final(releases)@ == old(releases)@.push(old(self).spec_descriptor()),
    {
        self.released = true;
        releases.push(self.descriptor);
    }

    /// The owner SID, valid only while the descriptor is live.
    pub fn owner_sid(&self) -> (r: u64)
        requires
            !self.is_released(),
        ensures
            r == self.spec_owner(),
    {
        self.owner
    }

    /// The group SID, valid only while the descriptor is live.
    pub fn group_sid(&self) -> (r: u64)
        requires
            !self.is_released(),
        ensures
            r == self.spec_group(),
    {
        self.group
    }

    /// Decide from a probe outcome how large the name and domain
    /// buffers must be. A probe that claims success against null
    /// buffers broke the primitive's contract and is not trusted; a
    /// zero count for either buffer means the SID was incorrect.
    pub fn lookup_account_sid_buffer(&self, probe: &ProbeOutcome) -> (r: Result<
        (u32, u32),
        Error,
    >)
        requires
            !self.is_released(),
        ensures
            probe.succeeded ==> r == Err::<(u32, u32), Error>(Error::InvalidInput(0)),
            !probe.succeeded && (probe.name_count == 0 || probe.domain_count == 0) ==> r == Err::<
                (u32, u32),
                Error,
            >(Error::NotFound),
            !probe.succeeded && probe.name_count != 0 && probe.domain_count != 0 ==> r == Ok::<
                (u32, u32),
                Error,
            >((probe.name_count, probe.domain_count)),
    {
        if probe.succeeded {
            Err(Error::InvalidInput(0))
        } else if probe.name_count == 0 || probe.domain_count == 0 {
            Err(Error::NotFound)
        } else {
            Ok((probe.name_count, probe.domain_count))
        }
    }

    /// Run the two-phase lookup protocol over the outcomes the security
    /// subsystem returned, one probe and at most one fill per attempt,
    /// retrying once from the probe when the fill finds its buffers no
    /// longer sufficient. The result is exactly [`lookup_outcome`] of
    /// the recorded outcomes.
    pub fn lookup_account_sid(&self, probes: &Vec<ProbeOutcome>, fills: &Vec<FillOutcome>) -> (r:
        Result<AccountName, Error>)
        requires
            !self.is_released(),
            probes@.len() >= MAX_LOOKUP_ATTEMPTS,
            fills@.len() >= MAX_LOOKUP_ATTEMPTS,
        ensures
            ({
                let o = lookup_outcome(probes@, fills@, 0);
                match r {
                    Ok(a) => o is Ok && a.name@ == o->Ok_0.0 && a.domain@ == o->Ok_0.1,
                    Err(e) => o == Err::<(Seq<char>, Seq<char>), Error>(e),
                }
            }),
    {
        let mut attempt: usize = 0;
        loop
            invariant
                !self.is_released(),
                attempt < MAX_LOOKUP_ATTEMPTS,
                probes@.len() >= MAX_LOOKUP_ATTEMPTS,
                fills@.len() >= MAX_LOOKUP_ATTEMPTS,
                lookup_outcome(probes@, fills@, attempt as int) == lookup_outcome(
                    probes@,
                    fills@,
                    0,
                ),
            decreases MAX_LOOKUP_ATTEMPTS - attempt,
        {
            let probe: ProbeOutcome = probes[attempt];
            match self.lookup_account_sid_buffer(&probe) {
                Err(e) => {
                    return Err(e);
                },
                Ok((_name_count, _domain_count)) => {
                    // The probed counts sized the buffers whose final
                    // contents the fill outcome reports.
                    let fill = &fills[attempt];
                    if fill.succeeded {
                        let name = decode_utf16_lossy(&fill.name_units);
                        let domain = decode_utf16_lossy(&fill.domain_units);
                        return Ok(AccountName { name, domain });
                    } else if fill.last_error == ERROR_INSUFFICIENT_BUFFER && attempt + 1
                        < MAX_LOOKUP_ATTEMPTS {
                        attempt = attempt + 1;
                    } else {
                        return Err(Error::InvalidInput(fill.last_error));
                    }
                },
            }
        }
    }
}

/// Resolve the account behind one acquisition, from the recorded
/// outcomes of the platform calls: validate the acquisition, run the
/// lookup protocol, and hand the descriptor back. Whatever path is
/// taken, an allocated descriptor is appended to the release log
/// exactly once, and a failed resolution reports why.
pub fn resolve_account(
    owner: u64,
    group: u64,
    descriptor: u64,
    probes: &Vec<ProbeOutcome>,
    fills: &Vec<FillOutcome>,
    releases: &mut Vec<u64>,
) -> (r: Result<AccountName, Error>)
    requires
        probes@.len() >= MAX_LOOKUP_ATTEMPTS,
        fills@.len() >= MAX_LOOKUP_ATTEMPTS,
    ensures
        descriptor != 0 ==> final(releases)@ == old(releases)@.push(descriptor),
        descriptor == 0 ==> final(releases)@ == old(releases)@,
        (owner == 0 || group == 0) ==> r == Err::<AccountName, Error>(Error::NotFound),
        (owner != 0 && group != 0 && descriptor == 0) ==> r == Err::<AccountName, Error>(
            Error::PermissionDenied,
        ),
        (owner != 0 && group != 0 && descriptor != 0) ==> ({
            let o = lookup_outcome(probes@, fills@, 0);
            match r {
                Ok(a) => o is Ok && a.name@ == o->Ok_0.0 && a.domain@ == o->Ok_0.1,
                Err(e) => o == Err::<(Seq<char>, Seq<char>), Error>(e),
            }
        }),
{
    match NamedSecurityInfo::from_acquisition(owner, group, descriptor, releases) {
        Err(e) => Err(e),
        Ok(mut info) => {
            let r = info.lookup_account_sid(probes, fills);
            info.release(releases);
            r
        },
    }
}

} // verus!
