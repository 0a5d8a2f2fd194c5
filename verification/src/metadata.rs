use vstd::prelude::*;
use vstd::string::*;

verus! {

/// The metadata pane's content: the displayed path, the size in bytes, and
/// the modification time rendered as text.
#[derive(Clone, Debug, PartialEq, Eq)]
pub struct MetadataSummary {
    pub display_path: String,
    pub size_bytes: u64,
    pub modified_text: String,
}

/// The text chrono renders for a timestamp of whole seconds since the Unix
/// epoch: a pure function of the seconds value.
pub uninterp spec fn datetime_text_of(secs: int) -> Seq<char>;

/// Relies on chrono::DateTime::from_timestamp and the Display form of its
/// naive UTC date-time: the rendered text depends on the seconds value alone.
/// None comes back exactly when chrono puts the timestamp out of range, which
/// its documentation bounds at about 262,000 years from the common era; a
/// value within a thousand billion seconds of the epoch is far inside that.
#[verifier::external_body]
fn render_timestamp(secs: i64) -> (r: Option<String>)
    ensures
        (match r {
            Some(s) => s@ == datetime_text_of(secs as int),
            None => true,
        }),
        -1000000000000 <= secs <= 1000000000000 ==> r is Some,
{
    chrono::DateTime::<chrono::Utc>::from_timestamp(secs, 0).map(|dt| format!("{}", dt.naive_utc()))
}

/// Builds the metadata summary: the path and the size as given, and the
/// modification time as chrono renders it. When the timestamp falls outside
/// chrono's range the fixed placeholder stands in; nothing here fails.
pub fn build_metadata(display_path: String, size_bytes: u64, modified_secs: i64) -> (r:
    MetadataSummary)
    ensures
        r.display_path == display_path,
        r.size_bytes == size_bytes,
        r.modified_text@ == datetime_text_of(modified_secs as int) || r.modified_text@
            == "Cannot retrieve file info"@,
        -1000000000000 <= modified_secs <= 1000000000000 ==> r.modified_text@ == datetime_text_of(
            modified_secs as int,
        ),
{
    let modified_text = match render_timestamp(modified_secs) {
        Some(t) => t,
        None => String::from_str("Cannot retrieve file info"),
    };
    MetadataSummary { display_path, size_bytes, modified_text }
}

/// The summary shown when the filesystem refuses the metadata query.
pub fn metadata_unavailable(display_path: String) -> (r: MetadataSummary)
    ensures
        r.display_path == display_path,
        r.size_bytes == 0,
        r.modified_text@ == "Cannot retrieve file info"@,
{
    MetadataSummary {
        display_path,
        size_bytes: 0,
        modified_text: String::from_str("Cannot retrieve file info"),
    }
}

} // verus!
