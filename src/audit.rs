//! Text of audit records. Records name fingerprints, tiers and purposes; they
//! never carry key material or passphrases. Writing them is the caller's part.
use vstd::prelude::*;
use crate::key_type::KeyType;
use vstd::string::StringExecFns;

verus! {

/// Message recorded when an authority key is generated.
pub open spec fn key_generation_message(fingerprint_hex: Seq<char>, key_type: KeyType, purpose: Seq<char>) -> Seq<char> {
    "Authority key generated: "@ + fingerprint_hex + " ("@ + key_type.spec_name() + ") for "@ + purpose
}

/// Message recorded when an ignition key is generated.
pub open spec fn ignition_generation_message(fingerprint_hex: Seq<char>, wrapped: KeyType) -> Seq<char> {
    "Ignition key generated: "@ + fingerprint_hex + " wrapping "@ + wrapped.spec_name()
}

/// One audit line: `<timestamp> <level> <subsystem> <message>`.
pub open spec fn audit_line_text(timestamp: Seq<char>, level: Seq<char>, subsystem: Seq<char>, message: Seq<char>) -> Seq<char> {
    timestamp + " "@ + level + " "@ + subsystem + " "@ + message
}

pub fn key_generation_record(fingerprint_hex: &str, key_type: KeyType, purpose: &str) -> (r: String)
    ensures
        r@ == key_generation_message(fingerprint_hex@, key_type, purpose@),
{
    let mut m = "Authority key generated: ".to_string();
    m.append(fingerprint_hex);
    m.append(" (");
    m.append(key_type.name().as_str());
    m.append(") for ");
    m.append(purpose);
    m
}

pub fn ignition_generation_record(fingerprint_hex: &str, wrapped: KeyType) -> (r: String)
    ensures
        r@ == ignition_generation_message(fingerprint_hex@, wrapped),
{
    let mut m = "Ignition key generated: ".to_string();
    m.append(fingerprint_hex);
    m.append(" wrapping ");
    m.append(wrapped.name().as_str());
    m
}

/// Formats one audit line from its ISO-8601 UTC timestamp, level, subsystem and message.
pub fn audit_line(timestamp: &str, level: &str, subsystem: &str, message: &str) -> (r: String)
    ensures
        r@ == audit_line_text(timestamp@, level@, subsystem@, message@),
{
    let mut line = timestamp.to_string();
    line.append(" ");
    line.append(level);
    line.append(" ");
    line.append(subsystem);
    line.append(" ");
    line.append(message);
    line
}

} // verus!
