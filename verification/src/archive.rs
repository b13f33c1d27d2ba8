//! Unpacking the activator's zip archive: the `zip` crate reads the archive's
//! entries from its bytes, and the plan here says which directories and files
//! the application creates, in order, and what the extraction reports.

use vstd::prelude::*;
use crate::text::{push_str, string_of};

verus! {

/// What reading the archive's central directory gives: its number of entries, or
/// the text of the error.
pub uninterp spec fn zip_entry_count(bytes: Seq<u8>) -> Result<nat, Seq<char>>;

/// What opening entry `index` of the archive and reading it whole gives: its
/// enclosed name (`None` when the name is unsafe), whether it is a directory, the
/// bytes read from it, and the text of the error that stopped the read (`None` when
/// it was read to the end); or the text of the error that opening it gave.
pub uninterp spec fn zip_entry_at(bytes: Seq<u8>, index: nat) -> Result<
    (Option<Seq<char>>, bool, Seq<u8>, Option<Seq<char>>),
    Seq<char>,
>;

/// One entry of the archive, as read.
pub struct ZipEntry {
    /// The enclosed name, a path relative to the extraction folder; `None` when
    /// the entry's name would leave it.
    pub name: Option<String>,
    pub is_dir: bool,
    /// The decompressed bytes read, all of them unless `read_error` is set.
    pub contents: Vec<u8>,
    /// The text of the error that stopped the read, if one did.
    pub read_error: Option<String>,
}

/// A step of the extraction, for the application to perform in order.
pub enum ExtractAction {
    /// Create this directory (and its parents) under the extraction folder.
    CreateDir(String),
    /// Create this file (and its parent directories) with these contents.
    WriteFile(String, Vec<u8>),
}

/// The model of an `ExtractAction`.
pub enum PlannedAction {
    Dir(Seq<char>),
    File(Seq<char>, Seq<u8>),
}

pub open spec fn entry_view(e: ZipEntry) -> (Option<Seq<char>>, bool, Seq<u8>, Option<Seq<char>>) {
    (
        match e.name {
            Some(n) => Some(n@),
            None => None,
        },
        e.is_dir,
        e.contents@,
        match e.read_error {
            Some(m) => Some(m@),
            None => None,
        },
    )
}

pub open spec fn entry_result_view(r: Result<ZipEntry, String>) -> Result<
    (Option<Seq<char>>, bool, Seq<u8>, Option<Seq<char>>),
    Seq<char>,
> {
    match r {
        Ok(e) => Ok(entry_view(e)),
        Err(m) => Err(m@),
    }
}

pub open spec fn entries_view(es: Seq<Result<ZipEntry, String>>) -> Seq<
    Result<(Option<Seq<char>>, bool, Seq<u8>, Option<Seq<char>>), Seq<char>>,
> {
    Seq::new(es.len(), |i: int| entry_result_view(es[i]))
}

pub open spec fn action_view(a: ExtractAction) -> PlannedAction {
    match a {
        ExtractAction::CreateDir(n) => PlannedAction::Dir(n@),
        ExtractAction::WriteFile(n, b) => PlannedAction::File(n@, b@),
    }
}

pub open spec fn actions_view(acts: Seq<ExtractAction>) -> Seq<PlannedAction> {
    Seq::new(acts.len(), |i: int| action_view(acts[i]))
}

pub open spec fn count_view(r: Result<usize, String>) -> Result<nat, Seq<char>> {
    match r {
        Ok(n) => Ok(n as nat),
        Err(m) => Err(m@),
    }
}

pub open spec fn outcome_view(r: Result<usize, String>) -> Result<nat, Seq<char>> {
    count_view(r)
}

/// The actions for the first `k` entries, and the problem that stopped the
/// extraction there, if one did: an unreadable entry, an entry whose name is not
/// enclosed, or a file whose contents could not be read to the end (the file is
/// written with the bytes read before the error, then the extraction stops).
pub open spec fn plan_upto(
    es: Seq<Result<(Option<Seq<char>>, bool, Seq<u8>, Option<Seq<char>>), Seq<char>>>,
    k: int,
) -> (Seq<PlannedAction>, Option<Seq<char>>)
    decreases k,
{
    if k <= 0 {
        (seq![], None)
    } else {
        let prev = plan_upto(es, k - 1);
        if prev.1 is Some {
            prev
        } else {
            match es[k - 1] {
                Err(e) => (prev.0, Some("Zip entry error: "@ + e)),
                Ok((name, is_dir, contents, read_error)) => match name {
                    None => (prev.0, Some("Invalid zip entry name"@)),
                    Some(n) => if is_dir {
                        (prev.0.push(PlannedAction::Dir(n)), None)
                    } else {
                        (
                            prev.0.push(PlannedAction::File(n, contents)),
                            match read_error {
                                None => None,
                                Some(e) => Some("Extract copy error: "@ + e),
                            },
                        )
                    },
                },
            }
        }
    }
}

/// Once a problem stops the extraction, later entries change nothing.
proof fn lemma_plan_stays(
    es: Seq<Result<(Option<Seq<char>>, bool, Seq<u8>, Option<Seq<char>>), Seq<char>>>,
    k: int,
    j: int,
)
    requires
        0 <= k <= j,
        plan_upto(es, k).1 is Some,
    ensures
        plan_upto(es, j) == plan_upto(es, k),
    decreases j - k,
{
    if k < j {
        lemma_plan_stays(es, k, j - 1);
    }
}

/// The whole plan: the actions, and either the number of entries or the problem
/// that stopped the extraction.
pub open spec fn spec_extraction_plan(
    es: Seq<Result<(Option<Seq<char>>, bool, Seq<u8>, Option<Seq<char>>), Seq<char>>>,
) -> (Seq<PlannedAction>, Result<nat, Seq<char>>) {
    let p = plan_upto(es, es.len() as int);
    (
        p.0,
        match p.1 {
            Some(e) => Err(e),
            None => Ok(es.len()),
        },
    )
}

/// The extraction of an archive with these bytes: nothing and the error when the
/// archive cannot be read, else the plan over its entries.
pub open spec fn spec_zip_extraction(bytes: Seq<u8>) -> (Seq<PlannedAction>, Result<nat, Seq<char>>) {
    match zip_entry_count(bytes) {
        Err(e) => (seq![], Err("Invalid zip archive: "@ + e)),
        Ok(n) => spec_extraction_plan(Seq::new(n, |i: int| zip_entry_at(bytes, i as nat))),
    }
}

/// `zip::ZipArchive::new` over the bytes, then `len`: the number of entries that
/// the central directory lists, or the error's text. The result is named, not
/// stated: it is what the crate's reader makes of these bytes alone.
#[verifier::external_body]
fn zip_archive_len(bytes: &Vec<u8>) -> (r: Result<usize, String>)
    ensures
        count_view(r) == zip_entry_count(bytes@),
{
    match zip::ZipArchive::new(std::io::Cursor::new(bytes.as_slice())) {
        Ok(archive) => Ok(archive.len()),
        Err(e) => Err(e.to_string()),
    }
}

/// `zip::ZipArchive::new` over the bytes, `by_index(index)`, then the entry's
/// `enclosed_name`, `is_dir` and its contents read to the end with `read_to_end`, which
/// keeps the bytes read before an error. The result is named,
/// not stated: it depends on these bytes and the index alone.
#[verifier::external_body]
fn read_zip_entry(bytes: &Vec<u8>, index: usize) -> (r: Result<ZipEntry, String>)
    ensures
        entry_result_view(r) == zip_entry_at(bytes@, index as nat),
{
    let mut archive = match zip::ZipArchive::new(std::io::Cursor::new(bytes.as_slice())) {
        Ok(a) => a,
        Err(e) => return Err(e.to_string()),
    };
    let mut entry = match archive.by_index(index) {
        Ok(f) => f,
        Err(e) => return Err(e.to_string()),
    };
    let name = entry.enclosed_name().map(|p| p.to_string_lossy().into_owned());
    let mut bytes_read: Vec<u8> = Vec::new();
    let read_error = std::io::Read::read_to_end(&mut entry, &mut bytes_read).err().map(|e| e.to_string());
    Ok(ZipEntry { name, is_dir: entry.is_dir(), contents: bytes_read, read_error })
}

fn copy_bytes(b: &Vec<u8>) -> (r: Vec<u8>)
    ensures
        r@ == b@,
{
    let mut r: Vec<u8> = Vec::new();
    let mut i: usize = 0;
    while i < b.len()
        invariant
            i <= b.len(),
            r@ == b@.take(i as int),
        decreases b.len() - i,
    {
        r.push(b[i]);
        assert(b@.take(i + 1) =~= b@.take(i as int).push(b@[i as int]));
        i += 1;
    }
    assert(b@.take(b.len() as int) =~= b@);
    r
}

fn message(prefix: &str, detail: &String) -> (r: String)
    ensures
        r@ == prefix@ + detail@,
{
    let mut out: Vec<char> = Vec::new();
    push_str(&mut out, prefix);
    push_str(&mut out, detail.as_str());
    string_of(&out)
}

/// The extraction steps for the entries read from an archive, in order, up to the
/// first problem; and the number of entries, or that problem's message.
pub fn extraction_plan(entries: &Vec<Result<ZipEntry, String>>) -> (r: (
    Vec<ExtractAction>,
    Result<usize, String>,
))
    ensures
        actions_view(r.0@) == spec_extraction_plan(entries_view(entries@)).0,
        outcome_view(r.1) == spec_extraction_plan(entries_view(entries@)).1,
{
    let ghost es = entries_view(entries@);
    let mut actions: Vec<ExtractAction> = Vec::new();
    let mut i: usize = 0;
    while i < entries.len()
        invariant
            i <= entries.len(),
            es == entries_view(entries@),
            es.len() == entries@.len(),
            plan_upto(es, i as int).1 is None,
            actions_view(actions@) == plan_upto(es, i as int).0,
        decreases entries.len() - i,
    {
        let ghost before = actions@;
        match &entries[i] {
            Err(e) => {
                let m = message("Zip entry error: ", e);
                proof {
                    lemma_plan_stays(es, i + 1, es.len() as int);
                }
                return (actions, Err(m));
            },
            Ok(entry) => match &entry.name {
                None => {
                    let m = string_of(&crate::text::chars_of("Invalid zip entry name"));
                    proof {
                        lemma_plan_stays(es, i + 1, es.len() as int);
                    }
                    return (actions, Err(m));
                },
                Some(n) => {
                    if entry.is_dir {
                        actions.push(ExtractAction::CreateDir(n.clone()));
                    } else {
                        actions.push(ExtractAction::WriteFile(n.clone(), copy_bytes(&entry.contents)));
                        if let Some(e) = &entry.read_error {
                            assert(actions_view(actions@) =~= actions_view(before).push(
                                action_view(actions@.last()),
                            ));
                            let m = message("Extract copy error: ", e);
                            proof {
                                lemma_plan_stays(es, i + 1, es.len() as int);
                            }
                            return (actions, Err(m));
                        }
                    }
                    assert(actions_view(actions@) =~= actions_view(before).push(
                        action_view(actions@.last()),
                    ));
                },
            },
        }
        i += 1;
    }
    (actions, Ok(entries.len()))
}

/// Reads the archive with these bytes and plans its extraction (see
/// `spec_zip_extraction`).
pub fn plan_zip_extraction(bytes: &Vec<u8>) -> (r: (Vec<ExtractAction>, Result<usize, String>))
    ensures
        actions_view(r.0@) == spec_zip_extraction(bytes@).0,
        outcome_view(r.1) == spec_zip_extraction(bytes@).1,
{
    let n = match zip_archive_len(bytes) {
        Err(e) => {
            let m = message("Invalid zip archive: ", &e);
            let none: Vec<ExtractAction> = Vec::new();
            assert(actions_view(none@) =~= seq![]);
            return (none, Err(m));
        },
        Ok(n) => n,
    };
    let ghost want = Seq::new(n as nat, |i: int| zip_entry_at(bytes@, i as nat));
    let mut entries: Vec<Result<ZipEntry, String>> = Vec::new();
    let mut i: usize = 0;
    while i < n
        invariant
            i <= n,
            zip_entry_count(bytes@) == Ok::<nat, Seq<char>>(n as nat),
            want == Seq::new(n as nat, |i: int| zip_entry_at(bytes@, i as nat)),
            entries_view(entries@) =~= want.take(i as int),
        decreases n - i,
    {
        let e = read_zip_entry(bytes, i);
        let ghost before = entries@;
        let ghost pushed = e;
        assert(entries_view(before).len() == before.len());
        assert(before.len() == i);
        entries.push(e);
        assert(entries@ == before.push(pushed));
        assert forall|k: int| 0 <= k < i + 1 implies entries_view(entries@)[k] == want.take(
            i + 1,
        )[k] by {
            if k < i {
                assert(entries_view(before)[k] == want.take(i as int)[k]);
                assert(entries@[k] == before[k]);
            }
        }
        assert(entries_view(entries@) =~= want.take(i + 1));
        i += 1;
    }
    assert(want.take(n as int) =~= want);
    extraction_plan(&entries)
}

} // verus!
