//! First come, first served: the browser that opens a link first records a
//! secret under the link's token, and only that browser may go on.
use vstd::prelude::*;

use crate::paths::{below, join_path};
use crate::takeover::{claim_file, claim_path, claims_dir, claims_root};
use crate::text::{cat4, opt_str_text, same_text, trim, trimmed};

verus! {

/// How a browser stands to the claim on a token.
#[derive(Debug, Clone, Copy, PartialEq, Eq, Structural)]
pub enum Standing {
    /// Nobody has claimed the token.
    Unclaimed,
    /// The browser shows the recorded secret.
    Holder,
    /// Somebody else has claimed the token.
    Other,
    /// The claim holds no secret; an empty cookie must not match it.
    Corrupt,
}

/// How a browser that shows `presented` stands to the recorded claim.
pub open spec fn standing(recorded: Option<Seq<char>>, presented: Option<Seq<char>>) -> Standing {
    match recorded {
        None => Standing::Unclaimed,
        Some(text) => if trimmed(text).len() == 0 {
            Standing::Corrupt
        } else if presented == Some(trimmed(text)) {
            Standing::Holder
        } else {
            Standing::Other
        },
    }
}

/// How a browser that shows `presented` stands to the claim in the file of the
/// token; `recorded` is the text of the file, if there is one.
pub fn claim(recorded: Option<&str>, presented: Option<&str>) -> (r: Standing)
    ensures
        r == standing(opt_str_text(recorded), opt_str_text(presented)),
{
    match recorded {
        None => Standing::Unclaimed,
        Some(text) => {
            let secret = trim(text);
            if secret.as_str().is_empty() {
                return Standing::Corrupt;
            }
            match presented {
                Some(p) => {
                    if same_text(p, secret.as_str()) {
                        Standing::Holder
                    } else {
                        Standing::Other
                    }
                },
                None => Standing::Other,
            }
        },
    }
}

/// Whether a browser that shows `presented` is the claimant. A claim that is
/// missing or empty has none.
pub fn claim_matches(recorded: Option<&str>, presented: Option<&str>) -> (r: bool)
    ensures
        r == (standing(opt_str_text(recorded), opt_str_text(presented)) == Standing::Holder),
{
    match claim(recorded, presented) {
        Standing::Holder => true,
        _ => false,
    }
}

/// How a claim gets into its place: written to a file of another name, which no
/// other attempt shares, then linked to its own. The link fails where there is
/// a claim already, so the first one stays and is never seen empty.
pub struct ClaimWrite {
    pub dir: String,
    pub tmp_path: String,
    pub path: String,
}

/// The files with which the claim on a token is recorded.
pub fn claim_write(root: &str, token: &str, secret: &str) -> (r: ClaimWrite)
    ensures
        r.dir@ == claims_root(root@),
        r.tmp_path@ == attempt_file(root@, token@, secret@),
        r.path@ == claim_file(root@, token@),
{
    let dir = claims_dir(root);
    let tmp_path = join_path(dir.as_str(), cat4(token, "-", secret, ".tmp").as_str());
    let path = claim_path(root, token);
    ClaimWrite { dir, tmp_path, path }
}

// ---- recording a claim ----------------------------------------------------

/// What is to be done next to record a claim, over the type of texts.
pub enum Recording<S> {
    /// Make the directory, as far as that can be done, and write the secret to
    /// the file of the other name.
    Write { dir: S, tmp_path: S, path: S, secret: S },
    /// Link that file to the claim's own name.
    Link { tmp_path: S, path: S },
    /// Remove the other name.
    Remove { tmp_path: S, linked: bool },
    /// It is over; says whether the claim is recorded.
    Done(bool),
}

/// What a [`Recording`] says.
pub open spec fn recording_view(r: Recording<String>) -> Recording<Seq<char>> {
    match r {
        Recording::Write { dir, tmp_path, path, secret } => Recording::Write {
            dir: dir@,
            tmp_path: tmp_path@,
            path: path@,
            secret: secret@,
        },
        Recording::Link { tmp_path, path } => Recording::Link { tmp_path: tmp_path@, path: path@ },
        Recording::Remove { tmp_path, linked } => Recording::Remove { tmp_path: tmp_path@, linked },
        Recording::Done(ok) => Recording::Done(ok),
    }
}

/// The file of the other name, which holds the secret of one attempt.
pub open spec fn attempt_file(root: Seq<char>, token: Seq<char>, secret: Seq<char>) -> Seq<char> {
    below(claims_root(root), token + "-"@ + secret + ".tmp"@)
}

/// What is to be done first to record a claim.
pub open spec fn first_recording(
    root: Seq<char>,
    token: Seq<char>,
    secret: Seq<char>,
) -> Recording<Seq<char>> {
    Recording::Write {
        dir: claims_root(root),
        tmp_path: attempt_file(root, token, secret),
        path: claim_file(root, token),
        secret,
    }
}

/// What is to be done next, given whether the last was done. A secret that could
/// not be written is not recorded; otherwise the link decides.
pub open spec fn next_recording(r: Recording<Seq<char>>, ok: bool) -> Recording<Seq<char>> {
    match r {
        Recording::Write { tmp_path, path, .. } => if ok {
            Recording::Link { tmp_path, path }
        } else {
            Recording::Done(false)
        },
        Recording::Link { tmp_path, .. } => Recording::Remove { tmp_path, linked: ok },
        Recording::Remove { linked, .. } => Recording::Done(linked),
        Recording::Done(recorded) => Recording::Done(recorded),
    }
}

/// Starts to record a secret as the claim on a token.
pub fn begin_recording(root: &str, token: &str, secret: &str) -> (r: Recording<String>)
    ensures
        recording_view(r) == first_recording(root@, token@, secret@),
{
    let w = claim_write(root, token, secret);
    Recording::Write {
        dir: w.dir,
        tmp_path: w.tmp_path,
        path: w.path,
        secret: secret.to_string(),
    }
}

/// Goes on to record a claim, given whether the last thing was done.
pub fn resume_recording(r: Recording<String>, ok: bool) -> (next: Recording<String>)
    ensures
        recording_view(next) == next_recording(recording_view(r), ok),
{
    match r {
        Recording::Write { tmp_path, path, .. } => {
            if ok {
                Recording::Link { tmp_path, path }
            } else {
                Recording::Done(false)
            }
        },
        Recording::Link { tmp_path, .. } => Recording::Remove { tmp_path, linked: ok },
        Recording::Remove { linked, .. } => Recording::Done(linked),
        Recording::Done(recorded) => Recording::Done(recorded),
    }
}

}
