//! The structured result records a search reports, as JSON text with the
//! keys in lexicographic order, and the throttled log summary line.

use vstd::prelude::*;

use crate::address::BitcoinAddress;
use crate::text::{append_escaped, bool_str, bool_str_spec, dec_str, json_escaped, u64_to_string};

verus! {

/// A JSON string literal holding the characters of `s`, escaped.
pub open spec fn json_str(s: Seq<char>) -> Seq<char> {
    seq!['"'] + json_escaped(s) + seq!['"']
}

/// Appends a JSON string literal holding `s` to `out`.
fn append_json_str(out: &mut String, s: &str)
    ensures
        final(out)@ == old(out)@ + json_str(s@),
{
    proof {
        reveal_strlit("\"");
    }
    out.append("\"");
    append_escaped(out, s);
    out.append("\"");
    proof {
        assert("\""@ =~= seq!['"']);
        assert(out@ =~= old(out)@ + json_str(s@));
    }
}

/// The record for one found address with elapsed time and iteration count:
/// `address`, `iterations`, `private_key`, `public_key`, `seconds`.
pub open spec fn search_record_spec(a: BitcoinAddress, seconds: u64, iterations: u64) -> Seq<
    char,
> {
    "{\"address\":"@ + json_str(a.address@) + ",\"iterations\":"@ + dec_str(iterations as nat)
        + ",\"private_key\":"@ + json_str(a.private_key@) + ",\"public_key\":"@ + json_str(
        a.public_key@,
    ) + ",\"seconds\":"@ + dec_str(seconds as nat) + "}"@
}

/// Renders the record for one found address with elapsed seconds and
/// iteration count.
pub fn search_record(bitcoin_address: &BitcoinAddress, seconds: u64, iterations: u64) -> (r:
    String)
    ensures
        r@ == search_record_spec(*bitcoin_address, seconds, iterations),
{
    let mut out = String::new();
    out.append("{\"address\":");
    append_json_str(&mut out, bitcoin_address.address.as_str());
    out.append(",\"iterations\":");
    out.append(u64_to_string(iterations).as_str());
    out.append(",\"private_key\":");
    append_json_str(&mut out, bitcoin_address.private_key.as_str());
    out.append(",\"public_key\":");
    append_json_str(&mut out, bitcoin_address.public_key.as_str());
    out.append(",\"seconds\":");
    out.append(u64_to_string(seconds).as_str());
    out.append("}");
    proof {
        assert(out@ =~= search_record_spec(*bitcoin_address, seconds, iterations));
    }
    out
}

/// The record for one found address with the aggregate attempt count:
/// `address`, `attempts`, `private_key`, `public_key`.
pub open spec fn found_record_spec(a: BitcoinAddress, attempts: u64) -> Seq<char> {
    "{\"address\":"@ + json_str(a.address@) + ",\"attempts\":"@ + dec_str(attempts as nat)
        + ",\"private_key\":"@ + json_str(a.private_key@) + ",\"public_key\":"@ + json_str(
        a.public_key@,
    ) + "}"@
}

/// Renders the record for one found address with the aggregate attempt
/// count.
pub fn found_record(bitcoin_address: &BitcoinAddress, attempts: u64) -> (r: String)
    ensures
        r@ == found_record_spec(*bitcoin_address, attempts),
{
    let mut out = String::new();
    out.append("{\"address\":");
    append_json_str(&mut out, bitcoin_address.address.as_str());
    out.append(",\"attempts\":");
    out.append(u64_to_string(attempts).as_str());
    out.append(",\"private_key\":");
    append_json_str(&mut out, bitcoin_address.private_key.as_str());
    out.append(",\"public_key\":");
    append_json_str(&mut out, bitcoin_address.public_key.as_str());
    out.append("}");
    proof {
        assert(out@ =~= found_record_spec(*bitcoin_address, attempts));
    }
    out
}

/// The record for one member of a paired candidate: `address`,
/// `compressed`, `creation_time` as seconds and nanoseconds, `private_key`,
/// `public_key`.
pub open spec fn couple_record_spec(
    a: BitcoinAddress,
    compressed: bool,
    secs: u64,
    nanos: u32,
) -> Seq<char> {
    "{\"address\":"@ + json_str(a.address@) + ",\"compressed\":"@ + bool_str_spec(compressed)
        + ",\"creation_time\":{\"nanos\":"@ + dec_str(nanos as nat) + ",\"secs\":"@ + dec_str(
        secs as nat,
    ) + "},\"private_key\":"@ + json_str(a.private_key@) + ",\"public_key\":"@ + json_str(
        a.public_key@,
    ) + "}"@
}

/// Renders the record for one member of a paired candidate.
pub fn couple_record(bitcoin_address: &BitcoinAddress, compressed: bool, secs: u64, nanos: u32) -> (
    r: String)
    ensures
        r@ == couple_record_spec(*bitcoin_address, compressed, secs, nanos),
{
    let mut out = String::new();
    out.append("{\"address\":");
    append_json_str(&mut out, bitcoin_address.address.as_str());
    out.append(",\"compressed\":");
    out.append(bool_str(compressed));
    out.append(",\"creation_time\":{\"nanos\":");
    out.append(u64_to_string(nanos as u64).as_str());
    out.append(",\"secs\":");
    out.append(u64_to_string(secs).as_str());
    out.append("},\"private_key\":");
    append_json_str(&mut out, bitcoin_address.private_key.as_str());
    out.append(",\"public_key\":");
    append_json_str(&mut out, bitcoin_address.public_key.as_str());
    out.append("}");
    proof {
        assert(out@ =~= couple_record_spec(*bitcoin_address, compressed, secs, nanos));
    }
    out
}

/// The throttled log summary line.
pub open spec fn log_message_spec(results: u64, minutes: u64) -> Seq<char> {
    dec_str(results as nat) + " addresses found in "@ + dec_str(minutes as nat) + " minutes."@
}

/// Renders the throttled log summary line.
pub fn log_message(results: u64, minutes: u64) -> (r: String)
    ensures
        r@ == log_message_spec(results, minutes),
{
    let mut out = u64_to_string(results);
    out.append(" addresses found in ");
    out.append(u64_to_string(minutes).as_str());
    out.append(" minutes.");
    proof {
        assert(out@ =~= log_message_spec(results, minutes));
    }
    out
}

} // verus!
