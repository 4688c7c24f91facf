use vstd::prelude::*;

verus! {

/// Closed classification of a blob's declared content type: either the
/// exact string `"application/json"`, or anything else.
#[derive(Clone, Copy, Debug, PartialEq, Eq, Structural)]
pub enum MimeType {
    Unknown,
    ApplicationJson,
}

/// The one content-type string that classifies as `ApplicationJson`.
pub open spec fn json_mime() -> Seq<char> {
    "application/json"@
}

/// How a host-reported content-type string is classified: an exact
/// match on `"application/json"`, with every other string (the empty
/// string included) mapping to `Unknown`.
pub open spec fn classify_spec(mime: Seq<char>) -> MimeType {
    if mime == json_mime() {
        MimeType::ApplicationJson
    } else {
        MimeType::Unknown
    }
}

impl MimeType {
    /// Classifies a host-reported content-type string.
    ///
    /// Returns `ApplicationJson` if and only if the string is exactly
    /// `"application/json"`.
    pub fn classify(mime: &String) -> (r: MimeType)
        ensures
            r == classify_spec(mime@),
            r is ApplicationJson <==> mime@ == json_mime(),
    {
        let json: String = "application/json".to_owned();
        if mime.eq(&json) {
            MimeType::ApplicationJson
        } else {
            MimeType::Unknown
        }
    }
}

} // verus!
