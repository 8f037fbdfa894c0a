//! Timestamps, output file names and well-known directories.

use vstd::prelude::*;
use crate::text::{decimal, has_prefix, push_decimal, lemma_decimal_injective};

verus! {

/// Result of an operation whose failure is reported as readable text.
pub type AppResult<T> = Result<T, String>;

#[verifier::external_type_specification]
#[verifier::external_body]
pub struct ExSystemTime(std::time::SystemTime);

#[verifier::external_type_specification]
#[verifier::external_body]
pub struct ExSystemTimeError(std::time::SystemTimeError);

/// Relies on `SystemTime::now`: the current wall-clock time, of which
/// nothing is promised.
pub assume_specification[ std::time::SystemTime::now ]() -> std::time::SystemTime;

/// Relies on `Duration::as_millis`: the whole milliseconds of a duration.
pub assume_specification[ core::time::Duration::as_millis ](d: &core::time::Duration) -> u128;

/// Relies on `SystemTime::duration_since` with `UNIX_EPOCH`: the time elapsed
/// since the epoch, or an error for a time before it.
#[verifier::external_body]
fn since_unix_epoch(t: &std::time::SystemTime) -> (r: Result<
    core::time::Duration,
    std::time::SystemTimeError,
>) {
    t.duration_since(std::time::UNIX_EPOCH)
}

/// Relies on `dirs::desktop_dir`: the user's desktop directory, where the
/// platform has one, as text.
#[verifier::external_body]
fn desktop_dir_text() -> (r: Option<String>) {
    dirs::desktop_dir().map(|p| p.to_string_lossy().into_owned())
}

pub open spec fn timestamp_error_prefix() -> Seq<char> {
    "Failed to get timestamp: "@
}

pub open spec fn desktop_error() -> Seq<char> {
    "Failed to get Desktop directory"@
}

/// `{prefix}_{timestamp}.{extension}`.
pub open spec fn file_name(prefix: Seq<char>, timestamp: nat, extension: Seq<char>) -> Seq<char> {
    prefix + seq!['_'] + decimal(timestamp) + seq!['.'] + extension
}

/// `{prefix}_{id}_{timestamp}.{extension}`.
pub open spec fn file_name_with_id(
    prefix: Seq<char>,
    id: nat,
    timestamp: nat,
    extension: Seq<char>,
) -> Seq<char> {
    prefix + seq!['_'] + decimal(id) + seq!['_'] + decimal(timestamp) + seq!['.'] + extension
}

/// Current time in milliseconds since the Unix epoch.
pub fn get_timestamp() -> (r: AppResult<u64>)
    ensures
        r matches Err(e) ==> has_prefix(e@, timestamp_error_prefix()),
{
    let now = std::time::SystemTime::now();
    match since_unix_epoch(&now) {
        Ok(d) => Ok(d.as_millis() as u64),
        Err(e) => {
            let mut msg = String::from_str("Failed to get timestamp: ");
            let detail = e.to_string();
            msg.append(detail.as_str());
            proof {
                assert(msg@.subrange(0, timestamp_error_prefix().len() as int) =~= timestamp_error_prefix());
            }
            Err(msg)
        },
    }
}

/// The file name for `prefix`, `timestamp` and `extension`.
pub fn filename_at(prefix: &str, timestamp: u64, extension: &str) -> (r: String)
    ensures
        r@ == file_name(prefix@, timestamp as nat, extension@),
{
    let mut out = String::from_str(prefix);
    out.append("_");
    push_decimal(&mut out, timestamp as u128);
    out.append(".");
    out.append(extension);
    proof {
        reveal_strlit("_");
        reveal_strlit(".");
        assert(out@ =~= file_name(prefix@, timestamp as nat, extension@));
    }
    out
}

/// The file name for `prefix`, `id`, `timestamp` and `extension`.
pub fn filename_with_id_at(prefix: &str, id: u32, timestamp: u64, extension: &str) -> (r: String)
    ensures
        r@ == file_name_with_id(prefix@, id as nat, timestamp as nat, extension@),
{
    let mut out = String::from_str(prefix);
    out.append("_");
    push_decimal(&mut out, id as u128);
    out.append("_");
    push_decimal(&mut out, timestamp as u128);
    out.append(".");
    out.append(extension);
    proof {
        reveal_strlit("_");
        reveal_strlit(".");
        assert(out@ =~= file_name_with_id(prefix@, id as nat, timestamp as nat, extension@));
    }
    out
}

/// A unique file name made of a prefix and the current timestamp.
pub fn generate_filename(prefix: &str, extension: &str) -> (r: AppResult<String>)
    ensures
        r matches Ok(name) ==> exists|t: u64| name@ == #[trigger] file_name(prefix@, t as nat, extension@),
        r matches Err(e) ==> has_prefix(e@, timestamp_error_prefix()),
{
    let timestamp = get_timestamp()?;
    Ok(filename_at(prefix, timestamp, extension))
}

/// A unique file name made of a prefix, an id and the current timestamp.
pub fn generate_filename_with_id(prefix: &str, id: u32, extension: &str) -> (r: AppResult<String>)
    ensures
        r matches Ok(name) ==> exists|t: u64|
            name@ == #[trigger] file_name_with_id(prefix@, id as nat, t as nat, extension@),
        r matches Err(e) ==> has_prefix(e@, timestamp_error_prefix()),
{
    let timestamp = get_timestamp()?;
    Ok(filename_with_id_at(prefix, id, timestamp, extension))
}

/// The user's desktop directory.
pub fn get_desktop_path() -> (r: AppResult<String>)
    ensures
        r matches Err(e) ==> e@ == desktop_error(),
{
    match desktop_dir_text() {
        Some(path) => Ok(path),
        None => Err(String::from_str("Failed to get Desktop directory")),
    }
}

/// Names made at two different timestamps differ; each begins with the
/// prefix and an underscore and ends with a dot and the extension.
pub proof fn lemma_file_names_distinct(
    prefix: Seq<char>,
    extension: Seq<char>,
    t1: nat,
    t2: nat,
)
    ensures
        has_prefix(file_name(prefix, t1, extension), prefix + seq!['_']),
        file_name(prefix, t1, extension).subrange(
            file_name(prefix, t1, extension).len() - extension.len() - 1,
            file_name(prefix, t1, extension).len() as int,
        ) == seq!['.'] + extension,
        t1 != t2 ==> file_name(prefix, t1, extension) != file_name(prefix, t2, extension),
{
    let head = prefix + seq!['_'];
    let tail = seq!['.'] + extension;
    let f1 = file_name(prefix, t1, extension);
    let f2 = file_name(prefix, t2, extension);
    assert(f1 =~= head + decimal(t1) + tail);
    assert(f2 =~= head + decimal(t2) + tail);
    assert(f1.subrange(0, head.len() as int) =~= head);
    assert(f1.subrange(f1.len() - tail.len(), f1.len() as int) =~= tail);
    if f1 == f2 {
        let k = head.len() as int;
        assert(f1.subrange(k, k + decimal(t1).len()) =~= decimal(t1));
        assert(f2.subrange(k, k + decimal(t2).len()) =~= decimal(t2));
        lemma_decimal_injective(t1, t2);
    }
}

/// Per-id names made at two different timestamps differ; each begins with
/// the prefix, the id and underscores, and ends with a dot and the extension.
pub proof fn lemma_file_names_with_id_distinct(
    prefix: Seq<char>,
    id: nat,
    extension: Seq<char>,
    t1: nat,
    t2: nat,
)
    ensures
        has_prefix(
            file_name_with_id(prefix, id, t1, extension),
            prefix + seq!['_'] + decimal(id) + seq!['_'],
        ),
        file_name_with_id(prefix, id, t1, extension).subrange(
            file_name_with_id(prefix, id, t1, extension).len() - extension.len() - 1,
            file_name_with_id(prefix, id, t1, extension).len() as int,
        ) == seq!['.'] + extension,
        t1 != t2 ==> file_name_with_id(prefix, id, t1, extension) != file_name_with_id(
            prefix,
            id,
            t2,
            extension,
        ),
{
    let head = prefix + seq!['_'] + decimal(id) + seq!['_'];
    let tail = seq!['.'] + extension;
    let f1 = file_name_with_id(prefix, id, t1, extension);
    let f2 = file_name_with_id(prefix, id, t2, extension);
    assert(f1 =~= head + decimal(t1) + tail);
    assert(f2 =~= head + decimal(t2) + tail);
    assert(f1.subrange(0, head.len() as int) =~= head);
    assert(f1.subrange(f1.len() - tail.len(), f1.len() as int) =~= tail);
    if f1 == f2 {
        let k = head.len() as int;
        assert(f1.subrange(k, k + decimal(t1).len()) =~= decimal(t1));
        assert(f2.subrange(k, k + decimal(t2).len()) =~= decimal(t2));
        lemma_decimal_injective(t1, t2);
    }
}

} // verus!
