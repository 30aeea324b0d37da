//! Decisions of the Age adapter: the arguments handed to the cipher, how its
//! failures map onto the error taxonomy, and the process exit codes. The
//! process itself is run by the caller; the passphrase never appears among the
//! arguments and is handed over on a separate channel.
use vstd::prelude::*;
use crate::error::{AgeError, AgeResult};
use crate::repository::{string_views, OutputFormat};
use crate::security::{passphrase_rule, SecurityValidator};
use vstd::string::StringSliceAdditionalSpecFns;

verus! {

/// One run of the cipher: its arguments, and the temporary sibling of the
/// destination that receives the output before the rename.
#[derive(Debug, Clone)]
pub struct CipherInvocation {
    pub args: Vec<String>,
    pub temporary_output: String,
    pub final_output: String,
}

/// Arguments of an encryption into `temporary`.
pub open spec fn encrypt_args(input: Seq<char>, temporary: Seq<char>, format: OutputFormat) -> Seq<Seq<char>> {
    if format == OutputFormat::AsciiArmor {
        seq!["--encrypt"@, "--passphrase"@, "--armor"@, "--output"@, temporary, input]
    } else {
        seq!["--encrypt"@, "--passphrase"@, "--output"@, temporary, input]
    }
}

/// Arguments of a decryption into `temporary`.
pub open spec fn decrypt_args(input: Seq<char>, temporary: Seq<char>) -> Seq<Seq<char>> {
    seq!["--decrypt"@, "--output"@, temporary, input]
}

fn owned(s: &str) -> (r: String)
    ensures
        r@ == s@,
{
    s.to_string()
}

fn temporary_for(output: &str) -> (r: String)
    ensures
        r@ == output@ + ".tmp"@,
{
    let mut t = output.to_string();
    vstd::string::StringExecFns::append(&mut t, ".tmp");
    t
}

/// Validates the passphrase and prepares an encryption of `input` into
/// `output` by way of `<output>.tmp`.
pub fn prepare_encrypt(
    validator: &SecurityValidator,
    input: &str,
    output: &str,
    passphrase: &str,
    format: OutputFormat,
) -> (r: AgeResult<CipherInvocation>)
    ensures
        passphrase_rule(passphrase.spec_bytes()) matches Some(name) ==> (r matches Err(
            AgeError::SecurityViolation { rule },
        ) && rule@ == name),
        passphrase_rule(passphrase.spec_bytes()) is None ==> (r matches Ok(c) && c.temporary_output@
            == output@ + ".tmp"@ && c.final_output@ == output@ && string_views(c.args@) == encrypt_args(
            input@,
            c.temporary_output@,
            format,
        )),
{
    match validator.validate_passphrase(passphrase) {
        Err(e) => Err(e),
        Ok(()) => {
            let temporary_output = temporary_for(output);
            let mut args: Vec<String> = Vec::new();
            args.push(owned("--encrypt"));
            args.push(owned("--passphrase"));
            if matches!(format, OutputFormat::AsciiArmor) {
                args.push(owned("--armor"));
            }
            args.push(owned("--output"));
            args.push(temporary_output.clone());
            args.push(owned(input));
            assert(string_views(args@) =~= encrypt_args(input@, temporary_output@, format));
            Ok(CipherInvocation { args, temporary_output, final_output: owned(output) })
        },
    }
}

/// Prepares a decryption of `input` into `output` by way of `<output>.tmp`.
pub fn prepare_decrypt(input: &str, output: &str) -> (r: CipherInvocation)
    ensures
        r.temporary_output@ == output@ + ".tmp"@,
        r.final_output@ == output@,
        string_views(r.args@) == decrypt_args(input@, r.temporary_output@),
{
    let temporary_output = temporary_for(output);
    let mut args: Vec<String> = Vec::new();
    args.push(owned("--decrypt"));
    args.push(owned("--output"));
    args.push(temporary_output.clone());
    args.push(owned(input));
    assert(string_views(args@) =~= decrypt_args(input@, temporary_output@));
    CipherInvocation { args, temporary_output, final_output: owned(output) }
}

/// The two cipher runs that move one encrypted file to a new passphrase:
/// decrypt it with the old passphrase into `<source>.plain.tmp`, then encrypt
/// that into `<source>.tmp`, which replaces the source on success.
#[derive(Debug, Clone)]
pub struct Rotation {
    pub decrypt: CipherInvocation,
    pub encrypt: CipherInvocation,
}

/// Validates the new passphrase and prepares the rotation of `source`.
pub fn prepare_rotation(validator: &SecurityValidator, source: &str, new_passphrase: &str) -> (r: AgeResult<
    Rotation,
>)
    ensures
        passphrase_rule(new_passphrase.spec_bytes()) matches Some(name) ==> (r matches Err(
            AgeError::SecurityViolation { rule },
        ) && rule@ == name),
        passphrase_rule(new_passphrase.spec_bytes()) is None ==> (r matches Ok(rot) && {
            &&& rot.decrypt.final_output@ == source@ + ".plain"@
            &&& rot.decrypt.temporary_output@ == source@ + ".plain.tmp"@
            &&& string_views(rot.decrypt.args@) == decrypt_args(source@, rot.decrypt.temporary_output@)
            &&& rot.encrypt.final_output@ == source@
            &&& rot.encrypt.temporary_output@ == source@ + ".tmp"@
            &&& string_views(rot.encrypt.args@) == encrypt_args(
                rot.decrypt.temporary_output@,
                rot.encrypt.temporary_output@,
                OutputFormat::Binary,
            )
        }),
{
    let mut plain = source.to_string();
    vstd::string::StringExecFns::append(&mut plain, ".plain");
    let decrypt = prepare_decrypt(source, plain.as_str());
    let encrypt = prepare_encrypt(
        validator,
        decrypt.temporary_output.as_str(),
        source,
        new_passphrase,
        OutputFormat::Binary,
    )?;
    assert(source@ + ".plain"@ + ".tmp"@ =~= source@ + ".plain.tmp"@) by {
        reveal_strlit(".plain");
        reveal_strlit(".tmp");
        reveal_strlit(".plain.tmp");
    }
    Ok(Rotation { decrypt, encrypt })
}

pub open spec fn contains_at(t: Seq<u8>, n: Seq<u8>, i: int) -> bool {
    0 <= i && i + n.len() <= t.len() && t.subrange(i, i + n.len()) == n
}

pub open spec fn contains(t: Seq<u8>, n: Seq<u8>) -> bool {
    exists|i: int| #[trigger] contains_at(t, n, i)
}

/// Whether `needle` occurs in `text`.
pub fn bytes_contain(text: &[u8], needle: &[u8]) -> (r: bool)
    ensures
        r == contains(text@, needle@),
{
    if needle.len() > text.len() {
        return false;
    }
    let last = text.len() - needle.len();
    let mut i: usize = 0;
    while i <= last
        invariant
            last + needle@.len() == text@.len(),
            text@.len() <= usize::MAX,
            0 <= i <= last + 1,
            forall|j: int| 0 <= j < i ==> !#[trigger] contains_at(text@, needle@, j),
        decreases last + 1 - i,
    {
        let mut k: usize = 0;
        let mut same = true;
        while k < needle.len()
            invariant
                last + needle@.len() == text@.len(),
                text@.len() <= usize::MAX,
                i <= last,
                0 <= k <= needle@.len(),
                same == forall|m: int| 0 <= m < k ==> text@[i + m] == needle@[m],
            decreases needle@.len() - k,
        {
            same = same && text[i + k] == needle[k];
            k = k + 1;
        }
        if same {
            assert(text@.subrange(i as int, i + needle@.len()) =~= needle@);
            assert(contains_at(text@, needle@, i as int));
            return true;
        }
        proof {
            if contains_at(text@, needle@, i as int) {
                let m = choose|m: int| 0 <= m < needle@.len() && text@[i + m] != needle@[m];
                assert(text@.subrange(i as int, i + needle@.len())[m] == text@[i + m]);
            }
        }
        if i == last {
            proof {
                assert forall|j: int| !#[trigger] contains_at(text@, needle@, j) by {
                    if 0 <= j < i + 1 {
                    }
                }
            }
            return false;
        }
        i = i + 1;
    }
    false
}

/// Classifies a failed cipher run from its diagnostic output: a passphrase
/// mismatch is an authentication failure, a missing or unreadable file an I/O
/// error, anything else an internal cipher error carrying the output.
pub fn classify_cipher_failure(path: &str, stderr: &str) -> (r: AgeError)
    ensures
        contains(stderr.spec_bytes(), "incorrect passphrase".spec_bytes()) || contains(
            stderr.spec_bytes(),
            "no identity matched".spec_bytes(),
        ) ==> r == AgeError::AuthenticationFailed,
        !contains(stderr.spec_bytes(), "incorrect passphrase".spec_bytes()) && !contains(
            stderr.spec_bytes(),
            "no identity matched".spec_bytes(),
        ) && contains(stderr.spec_bytes(), "no such file".spec_bytes()) ==> (r matches AgeError::IoError {
            path: p,
            kind,
        } && p@ == path@ && kind@ == "not found"@),
        !contains(stderr.spec_bytes(), "incorrect passphrase".spec_bytes()) && !contains(
            stderr.spec_bytes(),
            "no identity matched".spec_bytes(),
        ) && !contains(stderr.spec_bytes(), "no such file".spec_bytes()) ==> (r matches AgeError::InternalError {
            detail,
        } && detail@ == stderr@),
{
    let s = stderr.as_bytes();
    if bytes_contain(s, "incorrect passphrase".as_bytes()) || bytes_contain(s, "no identity matched".as_bytes()) {
        AgeError::AuthenticationFailed
    } else if bytes_contain(s, "no such file".as_bytes()) {
        AgeError::IoError { path: owned(path), kind: owned("not found") }
    } else {
        AgeError::InternalError { detail: owned(stderr) }
    }
}

/// Whether a version report of the cipher is one this adapter drives: it
/// starts with `v1.` or `1.`.
pub fn check_cipher_version(version: &str) -> (r: AgeResult<()>)
    ensures
        r is Ok <==> contains_at(version.spec_bytes(), "v1.".spec_bytes(), 0) || contains_at(
            version.spec_bytes(),
            "1.".spec_bytes(),
            0,
        ),
        r is Err ==> r == Err::<(), AgeError>(AgeError::CipherUnavailable),
{
    let v = version.as_bytes();
    let a = "v1.".as_bytes();
    let b = "1.".as_bytes();
    if starts(v, a) || starts(v, b) {
        Ok(())
    } else {
        Err(AgeError::CipherUnavailable)
    }
}

fn starts(t: &[u8], p: &[u8]) -> (r: bool)
    ensures
        r == contains_at(t@, p@, 0),
{
    if p.len() > t.len() {
        return false;
    }
    let mut k: usize = 0;
    while k < p.len()
        invariant
            p@.len() <= t@.len(),
            0 <= k <= p@.len(),
            forall|m: int| 0 <= m < k ==> t@[m] == p@[m],
        decreases p@.len() - k,
    {
        if t[k] != p[k] {
            assert(t@.subrange(0, p@.len() as int)[k as int] != p@[k as int]);
            return false;
        }
        k = k + 1;
    }
    assert(t@.subrange(0, p@.len() as int) =~= p@);
    true
}

/// Process exit code for an operation that failed: 2 for a validator refusal,
/// 3 when the cipher is unavailable, 1 otherwise.
pub fn exit_code_for_error(e: &AgeError) -> (r: i32)
    ensures
        r == match e {
            AgeError::SecurityViolation { .. } => 2i32,
            AgeError::CipherUnavailable => 3i32,
            _ => 1i32,
        },
{
    match e {
        AgeError::SecurityViolation { .. } => 2,
        AgeError::CipherUnavailable => 3,
        _ => 1,
    }
}

/// Process exit code for a completed walk: 0 when no file failed, 1 otherwise.
pub fn exit_code_for_failures(failed_files: usize) -> (r: i32)
    ensures
        r == if failed_files == 0 { 0i32 } else { 1i32 },
{
    if failed_files == 0 { 0 } else { 1 }
}

/// Exit code of an emergency unlock refused for want of the force flag.
pub const EMERGENCY_REFUSED_EXIT: i32 = 4;

/// Recovery strategies of an emergency unlock, tried in this order.
#[derive(Debug, Clone, Copy, PartialEq, Eq, Structural)]
pub enum RecoveryStrategy {
    NormalDecrypt,
    BackupDecrypt,
    ReportOnly,
}

/// The force flag must be given for an emergency unlock.
pub fn check_emergency_force(force: bool) -> (r: AgeResult<()>)
    ensures
        r is Ok <==> force,
        !force ==> r->Err_0.is_invalid_operation(),
{
    if force {
        Ok(())
    } else {
        Err(AgeError::InvalidOperation {
            operation: "emergency_unlock".to_string(),
            reason: "Emergency unlock requires the force flag".to_string(),
        })
    }
}

/// The strategy to try after `current` failed: a backup decrypt when a backup
/// sibling exists, then report-only; nothing after report-only.
pub fn next_recovery(current: RecoveryStrategy, backup_exists: bool) -> (r: Option<RecoveryStrategy>)
    ensures
        current == RecoveryStrategy::NormalDecrypt && backup_exists ==> r == Some(RecoveryStrategy::BackupDecrypt),
        current == RecoveryStrategy::NormalDecrypt && !backup_exists ==> r == Some(RecoveryStrategy::ReportOnly),
        current == RecoveryStrategy::BackupDecrypt ==> r == Some(RecoveryStrategy::ReportOnly),
        current == RecoveryStrategy::ReportOnly ==> r is None,
{
    match current {
        RecoveryStrategy::NormalDecrypt => if backup_exists {
            Some(RecoveryStrategy::BackupDecrypt)
        } else {
            Some(RecoveryStrategy::ReportOnly)
        },
        RecoveryStrategy::BackupDecrypt => Some(RecoveryStrategy::ReportOnly),
        RecoveryStrategy::ReportOnly => None,
    }
}

} // verus!
