use vstd::prelude::*;
use vstd::string::StringExecFns;
use crate::outcome::ProbeOutcome;
use crate::text::{decimal, push_decimal};

verus! {

/// The address under which an endpoint is shown to the operator: the scheme,
/// the address and the path, without the port.
pub open spec fn display_url(address: Seq<char>, path: Seq<char>) -> Seq<char> {
    "http://"@ + address + path
}

/// The line for an endpoint that was confirmed.
pub open spec fn confirmed_line(address: Seq<char>, path: Seq<char>) -> Seq<char> {
    "\u{2713} Confirmed ADCS endpoint at: "@ + display_url(address, path)
}

/// The line for an endpoint that refused access with status `code`.
pub open spec fn potential_line(address: Seq<char>, path: Seq<char>, code: u16) -> Seq<char> {
    "? Potential ADCS endpoint at: "@ + display_url(address, path) + " (HTTP "@ + decimal(
        code as nat,
    ) + ")"@
}

/// The line for a host whose text is no IP address.
pub open spec fn invalid_line(host: Seq<char>) -> Seq<char> {
    "Invalid IP address: "@ + host
}

/// One record of the line-delimited output for tools: the host as it was
/// given, a tab, and the name of the outcome.
pub open spec fn record_line(host: Seq<char>, outcome: ProbeOutcome) -> Seq<char> {
    host + "\t"@ + outcome.label()
}

/// The part of the summary that names the confirmed endpoints: empty where
/// there is none.
pub open spec fn confirmed_part(confirmed: nat) -> Seq<char> {
    if confirmed > 0 {
        "Found "@ + decimal(confirmed) + " confirmed ADCS endpoint(s). "@
    } else {
        Seq::empty()
    }
}

/// The part of the summary that names the potential endpoints: empty where
/// there is none.
pub open spec fn potential_part(potential: nat) -> Seq<char> {
    if potential > 0 {
        "Found "@ + decimal(potential) + " potential ADCS endpoint(s) (401/403 responses). "@
    } else {
        Seq::empty()
    }
}

/// The closing line of a scan. It speaks of confirmed and potential
/// endpoints only, each where its count is not zero.
pub open spec fn summary_text(confirmed: nat, potential: nat) -> Seq<char> {
    if confirmed == 0 && potential == 0 {
        "\u{26a0} No ADCS endpoints found in the scanned hosts. Scan complete"@
    } else {
        confirmed_part(confirmed) + potential_part(potential) + "Scan complete"@
    }
}

/// Writes the address under which an endpoint is shown.
pub fn write_display_url(address: &str, path: &str) -> (url: String)
    ensures
        url@ == display_url(address@, path@),
{
    let mut url = String::from_str("http://");
    url.append(address);
    url.append(path);
    url
}

/// Writes the line for a confirmed endpoint.
pub fn write_confirmed_line(address: &str, path: &str) -> (line: String)
    ensures
        line@ == confirmed_line(address@, path@),
{
    let mut line = String::from_str("\u{2713} Confirmed ADCS endpoint at: ");
    let url = write_display_url(address, path);
    line.append(url.as_str());
    line
}

/// Writes the line for an endpoint that refused access.
pub fn write_potential_line(address: &str, path: &str, code: u16) -> (line: String)
    ensures
        line@ == potential_line(address@, path@, code),
{
    let mut line = String::from_str("? Potential ADCS endpoint at: ");
    let url = write_display_url(address, path);
    line.append(url.as_str());
    line.append(" (HTTP ");
    push_decimal(&mut line, code as u64);
    line.append(")");
    line
}

/// Writes the line for a host whose text is no IP address.
pub fn write_invalid_line(host: &str) -> (line: String)
    ensures
        line@ == invalid_line(host@),
{
    let mut line = String::from_str("Invalid IP address: ");
    line.append(host);
    line
}

/// Writes one record of the line-delimited output for tools.
pub fn write_record_line(host: &str, outcome: ProbeOutcome) -> (line: String)
    ensures
        line@ == record_line(host@, outcome),
{
    let mut line = String::from_str(host);
    line.append("\t");
    line.append(outcome.name());
    line
}

/// Writes the closing line of a scan.
pub fn write_summary(confirmed: u64, potential: u64) -> (line: String)
    ensures
        line@ == summary_text(confirmed as nat, potential as nat),
{
    if confirmed == 0 && potential == 0 {
        return String::from_str(
            "\u{26a0} No ADCS endpoints found in the scanned hosts. Scan complete",
        );
    }
    let mut line = String::new();
    if confirmed > 0 {
        line.append("Found ");
        push_decimal(&mut line, confirmed);
        line.append(" confirmed ADCS endpoint(s). ");
    }
    assert(line@ =~= confirmed_part(confirmed as nat));
    if potential > 0 {
        line.append("Found ");
        push_decimal(&mut line, potential);
        line.append(" potential ADCS endpoint(s) (401/403 responses). ");
    }
    assert(line@ =~= confirmed_part(confirmed as nat) + potential_part(potential as nat));
    line.append("Scan complete");
    line
}

} // verus!
