//! Local trial and license records and their pure rules: the tamper-evident
//! integrity hash of a trial, when a trial counts as expired, and when an
//! activated license is still valid on this machine. Reading and writing the
//! records, signatures and any talk with a license server are external
//! collaborators.

use crate::hashing::hex_of;
use crate::hashing::sha256_digest;
use crate::hashing::sha256_of;
use crate::hashing::to_hex;
use crate::strutil::i64_to_string;
use crate::strutil::int_rep;
use crate::strutil::str_eq;
use vstd::prelude::*;
use vstd::string::StrSliceExecFns;
use vstd::string::StringExecFns;
use vstd::utf8::encode_utf8;

verus! {

/// How long a trial runs: seven days, in seconds.
pub const TRIAL_DURATION_SECS: i64 = 7 * 24 * 60 * 60;

/// Salt mixed into the trial integrity hash to make tampering harder.
pub const TRIAL_SALT: &'static str = "PRIVATEAI_TRIAL_SALT_V1";

/// Rounding unit for the days a trial has left: one day, in seconds.
pub const SECS_PER_DAY: i64 = 86400;

/// The payload of a purchased license, as issued by the license server.
#[derive(Debug, Clone)]
pub struct LicenseData {
    pub email: String,
    pub tier: String,
    pub max_devices: u32,
    pub issued_at: i64,
    /// `None` means a lifetime license.
    pub expires_at: Option<i64>,
    pub version: String,
    pub id: String,
}

/// A license bound to one machine at activation time.
#[derive(Debug, Clone)]
pub struct ActivatedLicense {
    pub license_data: LicenseData,
    pub hardware_id: String,
    pub activated_at: i64,
}

/// Why an activated license stored on this machine is not valid.
#[derive(Debug, Clone, Copy, PartialEq, Eq, Structural)]
pub enum LicenseIssue {
    /// The stored license was activated on a different machine.
    HardwareMismatch,
    /// The license carried an expiry and it has passed.
    Expired,
}

/// What the application shows for its licensing state.
#[derive(Debug, Clone)]
pub enum LicenseStatus {
    NeedActivation,
    Trial { days_remaining: u32, expires_at: i64 },
    TrialExpired { started_at: i64, expired_at: i64 },
    Active { email: String, tier: String, expires_at: Option<i64> },
    Invalid { reason: String },
}

/// One machine's trial record.
#[derive(Debug, Clone)]
pub struct TrialInfo {
    pub started_at: i64,
    pub expires_at: i64,
    pub hardware_id: String,
    pub status: String,
    /// Tamper-evidence over the other four fields.
    pub integrity_hash: Option<String>,
}

/// The mathematical value of a trial record.
pub struct TrialView {
    pub started_at: i64,
    pub expires_at: i64,
    pub hardware_id: Seq<char>,
    pub status: Seq<char>,
    pub integrity_hash: Option<Seq<char>>,
}

impl View for TrialInfo {
    type V = TrialView;

    open spec fn view(&self) -> TrialView {
        TrialView {
            started_at: self.started_at,
            expires_at: self.expires_at,
            hardware_id: self.hardware_id@,
            status: self.status@,
            integrity_hash: match self.integrity_hash {
                Some(h) => Some(h@),
                None => None,
            },
        }
    }
}

/// The text whose digest seals a trial record: the four data fields joined
/// by colons.
pub open spec fn trial_hash_text(t: TrialView) -> Seq<char> {
    int_rep(t.started_at as int) + ":"@ + int_rep(t.expires_at as int) + ":"@ + t.hardware_id
        + ":"@ + t.status
}

/// The integrity hash of a trial record: the hex digest of its salted text.
pub open spec fn trial_hash(t: TrialView) -> Seq<char> {
    hex_of(sha256_of(encode_utf8(trial_hash_text(t)) + encode_utf8(TRIAL_SALT@)))
}

impl TrialInfo {
    /// Compute the integrity hash over the record's data fields.
    pub fn calculate_hash(&self) -> (r: String)
        ensures
            r@ == trial_hash(self@),
    {
        let mut text = i64_to_string(self.started_at);
        text.append(":");
        let expires = i64_to_string(self.expires_at);
        text.append(expires.as_str());
        text.append(":");
        text.append(self.hardware_id.as_str());
        text.append(":");
        text.append(self.status.as_str());
        assert(text@ =~= trial_hash_text(self@));
        let mut bytes = text.as_str().as_bytes_vec();
        let mut salt = TRIAL_SALT.as_bytes_vec();
        bytes.append(&mut salt);
        assert(bytes@ =~= encode_utf8(trial_hash_text(self@)) + encode_utf8(TRIAL_SALT@));
        let digest = sha256_digest(&bytes);
        to_hex(&digest)
    }

    /// A record is intact exactly when it carries the hash of its own data
    /// fields; a record without a hash is treated as tampered with.
    pub fn verify_integrity(&self) -> (r: bool)
        ensures
            r <==> (self@.integrity_hash matches Some(h) && h == trial_hash(self@)),
    {
        match &self.integrity_hash {
            Some(h) => {
                let fresh = self.calculate_hash();
                str_eq(h.as_str(), fresh.as_str())
            },
            None => false,
        }
    }

    /// Begin a seven-day trial now, sealed for this machine.
    pub fn start_at(now: i64, hardware_id: String) -> (t: TrialInfo)
        requires
            now + TRIAL_DURATION_SECS <= i64::MAX,
        ensures
            t@.started_at == now,
            t@.expires_at == now + TRIAL_DURATION_SECS,
            t@.hardware_id == hardware_id@,
            t@.status == "active"@,
            t@.integrity_hash == Some(trial_hash(t@)),
    {
        let mut t = TrialInfo {
            started_at: now,
            expires_at: now + TRIAL_DURATION_SECS,
            hardware_id,
            status: String::from_str("active"),
            integrity_hash: None,
        };
        let hash = t.calculate_hash();
        t.integrity_hash = Some(hash);
        t
    }

    /// Mark an active trial expired once its time has passed, resealing the
    /// record; anything else is left untouched. Returns whether the record
    /// changed and must be stored again.
    pub fn refresh_status(&mut self, now: i64) -> (changed: bool)
        ensures
            (old(self)@.status == "active"@ && now >= old(self).expires_at) <==> changed,
            changed ==> {
                &&& final(self)@.started_at == old(self)@.started_at
                &&& final(self)@.expires_at == old(self)@.expires_at
                &&& final(self)@.hardware_id == old(self)@.hardware_id
                &&& final(self)@.status == "expired"@
                &&& final(self)@.integrity_hash == Some(trial_hash(final(self)@))
            },
            !changed ==> *final(self) == *old(self),
    {
        if str_eq(self.status.as_str(), "active") && now >= self.expires_at {
            self.status = String::from_str("expired");
            let hash = self.calculate_hash();
            self.integrity_hash = Some(hash);
            true
        } else {
            false
        }
    }
}

/// What the licensing state shows for a trial record at time `now`: expired
/// once its end has passed, otherwise running, with the days left rounded
/// upward.
pub fn trial_status(trial: &TrialInfo, now: i64) -> (s: LicenseStatus)
    requires
        trial.expires_at - now + SECS_PER_DAY - 1 <= i64::MAX,
    ensures
        now >= trial.expires_at ==> s == (LicenseStatus::TrialExpired {
            started_at: trial.started_at,
            expired_at: trial.expires_at,
        }),
        now < trial.expires_at ==> s == (LicenseStatus::Trial {
            days_remaining: (((trial.expires_at - now + SECS_PER_DAY - 1) as int / (
            SECS_PER_DAY as int)) as u32),
            expires_at: trial.expires_at,
        }),
{
    if now >= trial.expires_at {
        LicenseStatus::TrialExpired { started_at: trial.started_at, expired_at: trial.expires_at }
    } else {
        let remaining_secs = trial.expires_at - now;
        let days_remaining = ((remaining_secs + (SECS_PER_DAY - 1)) / SECS_PER_DAY) as u32;
        LicenseStatus::Trial { days_remaining, expires_at: trial.expires_at }
    }
}

/// Whether a license id stands in the local revocation blacklist.
pub fn is_revoked(revoked: &Vec<String>, license_id: &str) -> (r: bool)
    ensures
        r <==> exists|i: int| 0 <= i < revoked@.len() && revoked@[i]@ == license_id@,
{
    let n = revoked.len();
    let mut i: usize = 0;
    while i < n
        invariant
            0 <= i <= n == revoked@.len(),
            forall|k: int| 0 <= k < i ==> revoked@[k]@ != license_id@,
        decreases n - i,
    {
        if str_eq(revoked[i].as_str(), license_id) {
            return true;
        }
        i = i + 1;
    }
    false
}

impl ActivatedLicense {
    /// Whether the stored license is valid on this machine at time `now`: it
    /// must have been activated on the same hardware, and any expiry must not
    /// have passed. Lifetime licenses never expire.
    pub fn check_validity(&self, now: i64, current_hardware: &str) -> (r: Result<(), LicenseIssue>)
        ensures
            self.hardware_id@ != current_hardware@ ==> r == Result::<(), LicenseIssue>::Err(
                LicenseIssue::HardwareMismatch,
            ),
            self.hardware_id@ == current_hardware@ ==> match self.license_data.expires_at {
                Some(e) => {
                    if now > e {
                        r == Result::<(), LicenseIssue>::Err(LicenseIssue::Expired)
                    } else {
                        r is Ok
                    }
                },
                None => r is Ok,
            },
    {
        if !str_eq(self.hardware_id.as_str(), current_hardware) {
            return Err(LicenseIssue::HardwareMismatch);
        }
        match self.license_data.expires_at {
            Some(e) => {
                if now > e {
                    Err(LicenseIssue::Expired)
                } else {
                    Ok(())
                }
            },
            None => Ok(()),
        }
    }

    /// The licensing state shown for a valid activated license.
    pub fn active_status(&self) -> (s: LicenseStatus)
        ensures
            s matches LicenseStatus::Active { email, tier, expires_at } && email@
                == self.license_data.email@ && tier@ == self.license_data.tier@ && expires_at
                == self.license_data.expires_at,
    {
        LicenseStatus::Active {
            email: String::from_str(self.license_data.email.as_str()),
            tier: String::from_str(self.license_data.tier.as_str()),
            expires_at: self.license_data.expires_at,
        }
    }
}

} // verus!
