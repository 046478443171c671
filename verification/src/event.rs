//! The event translator: one raw filesystem notification in, either one
//! staging action with a generated commit message out, or nothing.

use vstd::prelude::*;

verus! {

/// One debounced filesystem notification, as the watcher collaborator
/// delivers it. The watcher also reports whether a created path is a
/// directory, since the core itself never touches the filesystem.
pub enum FsEvent {
    /// A path came into existence.
    Created { path: String, is_dir: bool },
    /// A file's content was written.
    Modified { path: String },
    /// A file's metadata (permissions, ownership) changed.
    MetadataChanged { path: String },
    /// A path was removed.
    Removed { path: String },
    /// A path was renamed.
    Renamed { old_path: String, new_path: String },
    /// Advance notice of a write; carries no actionable change.
    NoticeWrite { path: String },
    /// Advance notice of a removal; carries no actionable change.
    NoticeRemove { path: String },
}

/// One staging action with its commit message: constructed per translated
/// event, consumed immediately by the repository backend.
pub struct CommitRequest {
    /// The path to stage.
    pub path: String,
    /// The message of the commit recording the change.
    pub message: String,
}

/// A commit message of the shape `{prefix}{path} @ {timestamp}`.
pub open spec fn stamped(prefix: Seq<char>, path: Seq<char>, ts: Seq<char>) -> Seq<char> {
    prefix + path + " @ "@ + ts
}

/// The commit message for a rename: `renamed file {old} to {new} @ {ts}`.
pub open spec fn renamed_message(old: Seq<char>, new: Seq<char>, ts: Seq<char>) -> Seq<char> {
    "renamed file "@ + old + " to "@ + new + " @ "@ + ts
}

/// The commit message of the final snapshot taken at shutdown.
pub open spec fn exited_message(ts: Seq<char>) -> Seq<char> {
    "exited snapshot @ "@ + ts
}

/// What the translator decides for one event: the path to stage and the
/// commit message, or nothing. Directories and the notice variants produce
/// nothing; a rename stages the new path.
pub open spec fn spec_translate(e: FsEvent, ts: Seq<char>) -> Option<(Seq<char>, Seq<char>)> {
    match e {
        FsEvent::Created { path, is_dir } => if is_dir {
            None
        } else {
            Some((path@, stamped("created file "@, path@, ts)))
        },
        FsEvent::Modified { path } => Some((path@, stamped("written file "@, path@, ts))),
        FsEvent::MetadataChanged { path } => Some((path@, stamped("chmod file "@, path@, ts))),
        FsEvent::Removed { path } => Some((path@, stamped("deleted file "@, path@, ts))),
        FsEvent::Renamed { old_path, new_path } => Some(
            (new_path@, renamed_message(old_path@, new_path@, ts)),
        ),
        FsEvent::NoticeWrite { .. } => None,
        FsEvent::NoticeRemove { .. } => None,
    }
}

/// Build `{prefix}{path} @ {timestamp}`.
fn build_stamped(prefix: &str, path: &String, timestamp: &str) -> (m: String)
    ensures
        m@ == stamped(prefix@, path@, timestamp@),
{
    let mut m = String::from_str(prefix);
    m.append(path.as_str());
    m.append(" @ ");
    m.append(timestamp);
    m
}

/// Translate one filesystem event into a staging action plus a commit
/// message stamped with the given timestamp, or decide it is irrelevant.
pub fn translate(e: &FsEvent, timestamp: &str) -> (r: Option<CommitRequest>)
    ensures
        r is Some <==> spec_translate(*e, timestamp@) is Some,
        r matches Some(req) ==> spec_translate(*e, timestamp@) == Some((req.path@, req.message@)),
{
    match e {
        FsEvent::Created { path, is_dir } => {
            if *is_dir {
                None
            } else {
                Some(
                    CommitRequest {
                        path: path.clone(),
                        message: build_stamped("created file ", path, timestamp),
                    },
                )
            }
        },
        FsEvent::Modified { path } => Some(
            CommitRequest {
                path: path.clone(),
                message: build_stamped("written file ", path, timestamp),
            },
        ),
        FsEvent::MetadataChanged { path } => Some(
            CommitRequest {
                path: path.clone(),
                message: build_stamped("chmod file ", path, timestamp),
            },
        ),
        FsEvent::Removed { path } => Some(
            CommitRequest {
                path: path.clone(),
                message: build_stamped("deleted file ", path, timestamp),
            },
        ),
        FsEvent::Renamed { old_path, new_path } => {
            let mut m = String::from_str("renamed file ");
            m.append(old_path.as_str());
            m.append(" to ");
            m.append(new_path.as_str());
            m.append(" @ ");
            m.append(timestamp);
            Some(CommitRequest { path: new_path.clone(), message: m })
        },
        FsEvent::NoticeWrite { .. } => None,
        FsEvent::NoticeRemove { .. } => None,
    }
}

/// Whether `needle` occurs in `hay` as a contiguous run.
pub open spec fn has_substring(hay: Seq<char>, needle: Seq<char>) -> bool {
    exists|i: int|
        0 <= i && i + needle.len() <= hay.len() && #[trigger] hay.subrange(
            i,
            i + needle.len() as int,
        ) == needle
}

/// A file-creation event on a non-directory path always yields a commit
/// request that stages that path, and whose message contains the words
/// `created file` and the path itself.
pub proof fn lemma_creation_names_the_file(path: String, ts: Seq<char>)
    ensures
        spec_translate(FsEvent::Created { path, is_dir: false }, ts) matches Some(pm) && {
            &&& pm.0 == path@
            &&& has_substring(pm.1, "created file"@)
            &&& has_substring(pm.1, path@)
        },
{
    reveal_strlit("created file ");
    reveal_strlit("created file");
    let m = stamped("created file "@, path@, ts);
    let word = "created file"@;
    assert(has_substring(m, word)) by {
        assert(m.subrange(0, 0 + word.len() as int) =~= word);
    }
    assert(has_substring(m, path@)) by {
        assert(m.subrange(13, 13 + path@.len() as int) =~= path@);
    }
}

/// A directory-creation event never yields a commit request: directories
/// are not tracked as content.
pub proof fn lemma_directory_creation_suppressed(path: String, ts: Seq<char>)
    ensures
        spec_translate(FsEvent::Created { path, is_dir: true }, ts) is None,
{
}

/// A rename always stages the new path, never the old one.
pub proof fn lemma_rename_stages_new_path(old_path: String, new_path: String, ts: Seq<char>)
    ensures
        spec_translate(FsEvent::Renamed { old_path, new_path }, ts) matches Some(pm) && {
            &&& pm.0 == new_path@
            &&& old_path@ != new_path@ ==> pm.0 != old_path@
        },
{
}

/// Build the message of the final snapshot commit taken at shutdown.
pub fn build_exited_message(timestamp: &str) -> (m: String)
    ensures
        m@ == exited_message(timestamp@),
{
    let mut m = String::from_str("exited snapshot @ ");
    m.append(timestamp);
    m
}

} // verus!
