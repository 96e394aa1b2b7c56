//! Client configuration: timeouts derived from one base value, the retry
//! policy, the choice of profile and of backend service.
use vstd::prelude::*;
use crate::error::{ShellError, ShellErrorView};
use crate::text::{eq_ignoring_ascii_case, matches_ignoring_case};

verus! {

/// Seconds of the first backoff between retries.
pub const INITIAL_BACKOFF_SECS: u64 = 1;

/// Seconds of the longest backoff between retries.
pub const MAX_BACKOFF_SECS: u64 = 5;

/// How a client retries and how its timeouts grow from the base value.
pub struct ConfigOptions {
    pub retry_attempts: u32,
    pub operation_timeout_multiplier: u64,
    pub attempt_timeout_multiplier: u64,
}

impl Default for ConfigOptions {
    /// Five attempts; a whole operation may take three times the base
    /// timeout, and the timeout per attempt is nine times the base.
    fn default() -> (r: ConfigOptions)
        ensures
            r.retry_attempts == 5,
            r.operation_timeout_multiplier == 3,
            r.attempt_timeout_multiplier == 9,
    {
        ConfigOptions { retry_attempts: 5, operation_timeout_multiplier: 3, attempt_timeout_multiplier: 9 }
    }
}

/// The three timeouts of a client, in seconds.
#[derive(Debug, Clone, Copy, PartialEq, Eq, Structural)]
pub struct TimeoutTiers {
    pub connect_secs: u64,
    pub operation_secs: u64,
    pub attempt_secs: u64,
}

/// How a client retries a failed call.
#[derive(Debug, Clone, Copy, PartialEq, Eq, Structural)]
pub struct RetryPolicy {
    pub max_attempts: u32,
    pub initial_backoff_secs: u64,
    pub max_backoff_secs: u64,
}

/// The backend services that a client can be made for.
#[derive(Debug, Clone, Copy, PartialEq, Eq, Structural)]
pub enum ServiceKind {
    Athena,
    S3,
}

pub open spec fn athena_name() -> Seq<char> {
    seq!['a', 't', 'h', 'e', 'n', 'a']
}

pub open spec fn s3_name() -> Seq<char> {
    seq!['s', '3']
}

/// Whether the base timeout is usable: not zero, and with every tier
/// within `u64`.
pub open spec fn timeout_valid(o: &ConfigOptions, base: u64) -> bool {
    &&& base > 0
    &&& base * o.operation_timeout_multiplier <= u64::MAX
    &&& base * o.attempt_timeout_multiplier <= u64::MAX
}

impl ConfigOptions {
    /// The timeouts for base timeout `base`: connecting takes `base`, an
    /// operation and an attempt the base times their multipliers. A zero
    /// base, or one whose tiers do not fit in `u64`, is refused before
    /// anything else is done.
    pub fn timeouts(&self, base: u64) -> (r: Result<TimeoutTiers, ShellError>)
        ensures
            timeout_valid(self, base) ==> r == Ok::<TimeoutTiers, ShellError>(
                TimeoutTiers {
                    connect_secs: base,
                    operation_secs: (base * self.operation_timeout_multiplier) as u64,
                    attempt_secs: (base * self.attempt_timeout_multiplier) as u64,
                },
            ),
            !timeout_valid(self, base) ==> r == Err::<TimeoutTiers, ShellError>(
                ShellError::InvalidTimeout(base),
            ),
    {
        if base == 0 {
            return Err(ShellError::InvalidTimeout(base));
        }
        let operation = base.checked_mul(self.operation_timeout_multiplier);
        let attempt = base.checked_mul(self.attempt_timeout_multiplier);
        match (operation, attempt) {
            (Some(operation_secs), Some(attempt_secs)) => Ok(
                TimeoutTiers { connect_secs: base, operation_secs, attempt_secs },
            ),
            _ => Err(ShellError::InvalidTimeout(base)),
        }
    }

    /// The retry policy: this many attempts, backing off from one second up
    /// to five.
    pub fn retry_policy(&self) -> (r: RetryPolicy)
        ensures
            r == (RetryPolicy {
                max_attempts: self.retry_attempts,
                initial_backoff_secs: INITIAL_BACKOFF_SECS,
                max_backoff_secs: MAX_BACKOFF_SECS,
            }),
    {
        RetryPolicy {
            max_attempts: self.retry_attempts,
            initial_backoff_secs: INITIAL_BACKOFF_SECS,
            max_backoff_secs: MAX_BACKOFF_SECS,
        }
    }
}

#[verifier::external_type_specification]
#[verifier::external_body]
pub struct ExIni(configparser::ini::Ini);

/// The names of the sections that a loaded configuration holds.
pub uninterp spec fn ini_sections(ini: configparser::ini::Ini) -> Set<Seq<char>>;

/// Relies on configparser's `Ini::sections`: the names of the loaded
/// sections, in no fixed order.
#[verifier::external_body]
fn section_names(ini: &configparser::ini::Ini) -> (r: Vec<String>)
    ensures
        r.deep_view().to_set() == ini_sections(*ini),
{
    ini.sections()
}

/// Checks that the loaded credentials file has a section for `profile`.
pub fn check_profile_in(ini: &configparser::ini::Ini, profile: &str) -> (r: Result<(), ShellError>)
    ensures
        ini_sections(*ini).contains(profile@) ==> r is Ok,
        !ini_sections(*ini).contains(profile@) ==> r is Err && r->Err_0@
            == ShellErrorView::ProfileNotFound(profile@),
{
    let sections = section_names(ini);
    proof {
        assert(sections.deep_view().to_set().contains(profile@) == sections.deep_view().contains(
            profile@,
        ));
    }
    check_profile(&sections, profile)
}

/// Checks that the credentials file has a section for `profile`.
pub fn check_profile(sections: &Vec<String>, profile: &str) -> (r: Result<(), ShellError>)
    ensures
        sections.deep_view().contains(profile@) ==> r is Ok,
        !sections.deep_view().contains(profile@) ==> r is Err && r->Err_0@
            == ShellErrorView::ProfileNotFound(profile@),
{
    let mut i: usize = 0;
    while i < sections.len()
        invariant
            i <= sections@.len(),
            forall|k: int| 0 <= k < i ==> sections.deep_view()[k] != profile@,
        decreases sections@.len() - i,
    {
        if crate::text::same_text(sections[i].as_str(), profile) {
            assert(sections.deep_view()[i as int] == profile@);
            return Ok(());
        }
        i = i + 1;
    }
    Err(ShellError::ProfileNotFound(String::from_str(profile)))
}

impl ServiceKind {
    /// The service that `name` names, in any case of ASCII letters:
    /// `athena` or `s3`.
    pub fn from_name(name: &str) -> (r: Result<ServiceKind, ShellError>)
        ensures
            matches_ignoring_case(name@, athena_name()) ==> r == Ok::<ServiceKind, ShellError>(
                ServiceKind::Athena,
            ),
            matches_ignoring_case(name@, s3_name()) ==> r == Ok::<ServiceKind, ShellError>(
                ServiceKind::S3,
            ),
            !matches_ignoring_case(name@, athena_name()) && !matches_ignoring_case(name@, s3_name())
                ==> r is Err && r->Err_0@ == ShellErrorView::InvalidService(name@),
    {
        proof {
            reveal_strlit("athena");
            reveal_strlit("s3");
        }
        assert("athena"@ =~= athena_name());
        assert("s3"@ =~= s3_name());
        if eq_ignoring_ascii_case(name, "athena") {
            Ok(ServiceKind::Athena)
        } else if eq_ignoring_ascii_case(name, "s3") {
            Ok(ServiceKind::S3)
        } else {
            Err(ShellError::InvalidService(String::from_str(name)))
        }
    }
}

} // verus!
