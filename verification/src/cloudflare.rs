//! The remote DNS API: where its requests go, and how an answer is judged.
//! Sending the requests and reading the answers' JSON is the caller's part.

use crate::text::{decimal, decimal_text, joined};
use vstd::prelude::*;
use vstd::string::StringExecFns;

verus! {

/// A DNS record, as far as it is needed: its id.
#[derive(Debug, Clone, PartialEq, Eq)]
pub struct DnsRecordSummary {
    pub id: String,
}

/// One error of an answer.
#[derive(Debug, Clone, PartialEq, Eq)]
pub struct CloudflareErrorMessage {
    pub code: u64,
    pub message: String,
}

/// The frame of an answer: whether the API calls it a success, whether it
/// carries a result, and the errors it lists.
#[derive(Debug, Clone, PartialEq, Eq)]
pub struct CloudflareEnvelope {
    pub success: bool,
    pub has_result: bool,
    pub errors: Vec<CloudflareErrorMessage>,
}

/// The address of the records of a zone.
pub open spec fn records_url(zone_id: Seq<char>) -> Seq<char> {
    "https://api.cloudflare.com/client/v4/zones/"@ + zone_id + "/dns_records"@
}

/// The address of one record of a zone.
pub open spec fn record_url(zone_id: Seq<char>, record_id: Seq<char>) -> Seq<char> {
    records_url(zone_id) + "/"@ + record_id
}

/// The address to which the lookup of a zone's records goes.
pub fn lookup_url(zone_id: &str) -> (url: String)
    ensures
        url@ == records_url(zone_id@),
{
    let mut url = joined("https://api.cloudflare.com/client/v4/zones/", zone_id);
    url.append("/dns_records");
    url
}

/// The address to which the update of a record goes.
pub fn update_url(zone_id: &str, record_id: &str) -> (url: String)
    ensures
        url@ == record_url(zone_id@, record_id@),
{
    let mut url = lookup_url(zone_id);
    url.append("/");
    url.append(record_id);
    url
}

/// One error in words: its code, a colon, and its message.
pub open spec fn error_line(error: CloudflareErrorMessage) -> Seq<char> {
    decimal(error.code as nat) + ": "@ + error.message@
}

/// The errors in words, separated by commas.
pub open spec fn error_lines(errors: Seq<CloudflareErrorMessage>) -> Seq<char>
    decreases errors.len(),
{
    if errors.len() == 0 {
        Seq::empty()
    } else if errors.len() == 1 {
        error_line(errors[0])
    } else {
        error_lines(errors.drop_last()) + ", "@ + error_line(errors.last())
    }
}

/// The message of an answer that is no success: the status, and the errors
/// that the answer lists or, where it lists none, its whole text.
pub open spec fn failure_message(status: u16, text: Seq<char>, errors: Seq<CloudflareErrorMessage>)
    -> Seq<char> {
    "Cloudflare API request failed with HTTP "@ + decimal(status as nat) + ": "@ + (if error_lines(
        errors,
    ).len() == 0 {
        text
    } else {
        error_lines(errors)
    })
}

/// How an answer is judged: it is accepted where the status is 200, the API
/// calls it a success and it carries a result; a success without a result
/// and every other answer are failures.
pub open spec fn judged(status: u16, text: Seq<char>, envelope: CloudflareEnvelope) -> Result<
    (),
    Seq<char>,
> {
    if status == 200 && envelope.success {
        if envelope.has_result {
            Ok(())
        } else {
            Err("Cloudflare response missing result payload"@)
        }
    } else {
        Err(failure_message(status, text, envelope.errors@))
    }
}

fn error_text(errors: &Vec<CloudflareErrorMessage>) -> (r: String)
    ensures
        r@ == error_lines(errors@),
{
    let mut r = String::new();
    let mut i: usize = 0;
    assert(errors@.take(0) == Seq::<CloudflareErrorMessage>::empty());
    while i < errors.len()
        invariant
            i <= errors.len(),
            r@ == error_lines(errors@.take(i as int)),
        decreases errors.len() - i,
    {
        proof {
            let upto = errors@.take(i + 1);
            assert(upto.drop_last() == errors@.take(i as int));
            assert(upto.last() == errors@[i as int]);
            if i == 0 {
                assert(upto[0] == errors@[0]);
            }
        }
        if i > 0 {
            r.append(", ");
        }
        let code = decimal_text(errors[i].code);
        r.append(code.as_str());
        r.append(": ");
        r.append(errors[i].message.as_str());
        proof {
            let upto = errors@.take(i + 1);
            assert(r@ =~= error_lines(upto));
        }
        i += 1;
    }
    assert(errors@.take(i as int) == errors@);
    r
}

/// Judges an answer of the API by its status, its text and its frame.
pub fn parse_envelope(status: u16, text: &str, envelope: &CloudflareEnvelope) -> (r: Result<
    (),
    String,
>)
    ensures
        match r {
            Ok(()) => judged(status, text@, *envelope) == Ok::<(), Seq<char>>(()),
            Err(message) => judged(status, text@, *envelope) == Err::<(), Seq<char>>(message@),
        },
{
    if status == 200 && envelope.success {
        if envelope.has_result {
            return Ok(());
        }
        return Err("Cloudflare response missing result payload".to_owned());
    }
    let lines = error_text(&envelope.errors);
    let mut message = "Cloudflare API request failed with HTTP ".to_owned();
    let code = decimal_text(status as u64);
    message.append(code.as_str());
    message.append(": ");
    if lines.as_str().is_empty() {
        message.append(text);
    } else {
        message.append(lines.as_str());
    }
    assert(message@ =~= failure_message(status, text@, envelope.errors@));
    Err(message)
}

/// The id of the record of a name: that of the first record that the lookup
/// found, or a failure that names the domain where it found none.
pub open spec fn record_id_found(records: Seq<DnsRecordSummary>, domain: Seq<char>) -> Result<
    Seq<char>,
    Seq<char>,
> {
    if records.len() > 0 {
        Ok(records[0].id@)
    } else {
        Err("no AAAA record found for domain "@ + domain)
    }
}

/// Picks the record's id from what the lookup found.
pub fn find_aaaa_record_id(records: &Vec<DnsRecordSummary>, domain: &str) -> (r: Result<
    String,
    String,
>)
    ensures
        match r {
            Ok(id) => record_id_found(records@, domain@) == Ok::<Seq<char>, Seq<char>>(id@),
            Err(message) => record_id_found(records@, domain@) == Err::<Seq<char>, Seq<char>>(
                message@,
            ),
        },
{
    if records.len() > 0 {
        Ok(records[0].id.clone())
    } else {
        Err(joined("no AAAA record found for domain ", domain))
    }
}

} // verus!
