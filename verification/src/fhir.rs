use vstd::prelude::*;

verus! {

/// The status of the clinical observation that records an event of the given
/// logged severity.
pub open spec fn observation_status(severity: Seq<char>) -> Seq<char> {
    if severity == "Critical"@ {
        "final"@
    } else if severity == "False Alarm"@ {
        "entered-in-error"@
    } else if severity == "Assistance Sent"@ || severity == "Resolved"@ || severity
        == "Near Miss"@ {
        "final"@
    } else {
        "preliminary"@
    }
}

/// The assessment that the clinical observation states for an event of the
/// given logged severity.
pub open spec fn observation_value(severity: Seq<char>) -> Seq<char> {
    if severity == "Critical"@ {
        "High Risk - Fall Detected"@
    } else if severity == "False Alarm"@ {
        "Low Risk - False Alarm"@
    } else if severity == "Assistance Sent"@ {
        "Assessment in Progress"@
    } else if severity == "Resolved"@ {
        "Patient Stable"@
    } else if severity == "Near Miss"@ {
        "Near Miss - Movement Detected"@
    } else {
        "Unknown Status"@
    }
}

fn is_text(s: &String, literal: &str) -> (r: bool)
    ensures
        r == (s@ == literal@),
{
    s.eq(&literal.to_owned())
}

/// The status and the assessment of the clinical observation for an event
/// logged under `severity`; a severity that the log does not use gives a
/// preliminary observation of unknown status.
pub fn assess(severity: &String) -> (r: (String, String))
    ensures
        r.0@ == observation_status(severity@),
        r.1@ == observation_value(severity@),
{
    if is_text(severity, "Critical") {
        ("final".to_owned(), "High Risk - Fall Detected".to_owned())
    } else if is_text(severity, "False Alarm") {
        ("entered-in-error".to_owned(), "Low Risk - False Alarm".to_owned())
    } else if is_text(severity, "Assistance Sent") {
        ("final".to_owned(), "Assessment in Progress".to_owned())
    } else if is_text(severity, "Resolved") {
        ("final".to_owned(), "Patient Stable".to_owned())
    } else if is_text(severity, "Near Miss") {
        ("final".to_owned(), "Near Miss - Movement Detected".to_owned())
    } else {
        ("preliminary".to_owned(), "Unknown Status".to_owned())
    }
}

} // verus!
