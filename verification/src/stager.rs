//! Staging: deciding whether a payload must be copied into the staging
//! directory, and where to.
//!
//! Paths are taken in the canonical form that the file system reports: absolute,
//! with `/` between components and no trailing separator. The caller resolves
//! the path and performs the copy; [`copy_file_to_tmp`] decides each step from
//! what the previous one brought.

use vstd::prelude::*;
use vstd::string::*;
use crate::error::InjectionError;

verus! {

/// The one directory from which the target process is assumed able to load
/// files.
pub const TMP_DIR_PATH: &'static str = "/data/local/tmp";

/// What the caller reports back to [`copy_file_to_tmp`].
#[derive(Debug, PartialEq, Eq)]
pub enum StageEvent {
    /// Nothing has been done yet.
    Start,
    /// The path could not be resolved to a canonical form.
    ResolveFailed,
    /// The path was resolved to `canonical`.
    Resolved { canonical: String },
    /// The copy that was asked for failed.
    CopyFailed,
    /// The file was copied to `dest`.
    Copied { dest: String },
}

/// What [`copy_file_to_tmp`] asks the caller to do next.
#[derive(Debug, PartialEq, Eq)]
pub enum StageAction {
    /// Resolve `path` to its canonical form and report the outcome.
    Resolve { path: String },
    /// Copy the whole of `from` to `dest`, replacing what is there, and report
    /// the outcome.
    Copy { from: String, dest: String },
    /// Staging has ended: with the path the target can load, or with the
    /// failure.
    Done(Result<String, InjectionError>),
}

/// A [`StageEvent`] with its paths as character sequences.
pub enum StageEventModel {
    Start,
    ResolveFailed,
    Resolved { canonical: Seq<char> },
    CopyFailed,
    Copied { dest: Seq<char> },
}

/// A [`StageAction`] with its paths as character sequences.
pub enum StageActionModel {
    Resolve { path: Seq<char> },
    Copy { from: Seq<char>, dest: Seq<char> },
    Done(Result<Seq<char>, InjectionError>),
}

impl View for StageEvent {
    type V = StageEventModel;

    open spec fn view(&self) -> StageEventModel {
        match *self {
            StageEvent::Start => StageEventModel::Start,
            StageEvent::ResolveFailed => StageEventModel::ResolveFailed,
            StageEvent::Resolved { canonical } => StageEventModel::Resolved { canonical: canonical@ },
            StageEvent::CopyFailed => StageEventModel::CopyFailed,
            StageEvent::Copied { dest } => StageEventModel::Copied { dest: dest@ },
        }
    }
}

impl View for StageAction {
    type V = StageActionModel;

    open spec fn view(&self) -> StageActionModel {
        match *self {
            StageAction::Resolve { path } => StageActionModel::Resolve { path: path@ },
            StageAction::Copy { from, dest } => StageActionModel::Copy { from: from@, dest: dest@ },
            StageAction::Done(Ok(path)) => StageActionModel::Done(Ok(path@)),
            StageAction::Done(Err(e)) => StageActionModel::Done(Err(e)),
        }
    }
}

/// The staging directory, character by character.
pub open spec fn staging_dir() -> Seq<char> {
    TMP_DIR_PATH@
}

/// Whether `path` names the staging directory itself or something below it:
/// the directory is a prefix of `path` that ends at a component boundary.
pub open spec fn in_staging_dir(path: Seq<char>) -> bool {
    &&& staging_dir().is_prefix_of(path)
    &&& (path.len() == staging_dir().len() || path[staging_dir().len() as int] == '/')
}

/// The index at which the last component of `path` begins: just past the last
/// separator, or 0 where there is none.
pub open spec fn name_start(path: Seq<char>) -> int
    decreases path.len(),
{
    if path.len() == 0 {
        0
    } else if path.last() == '/' {
        path.len() as int
    } else {
        name_start(path.drop_last())
    }
}

/// The base name of `path`: everything after its last separator. It is empty
/// exactly when `path` is empty or ends in a separator.
pub open spec fn base_name(path: Seq<char>) -> Seq<char> {
    path.subrange(name_start(path), path.len() as int)
}

/// The path directly below the staging directory that carries `name`.
pub open spec fn staged_path(name: Seq<char>) -> Seq<char> {
    staging_dir() + seq!['/'] + name
}

/// The staging rule: what follows `event` when `file_path` is being staged.
///
/// A file that already lies in the staging directory is returned as it was
/// resolved and nothing is copied. Any other file is copied under its own base
/// name directly below the staging directory; one without a base name cannot
/// be staged. Every failure is a [`InjectionError::FileError`].
pub open spec fn stage_step(file_path: Seq<char>, event: StageEventModel) -> StageActionModel {
    match event {
        StageEventModel::Start => StageActionModel::Resolve { path: file_path },
        StageEventModel::ResolveFailed => StageActionModel::Done(Err(InjectionError::FileError)),
        StageEventModel::Resolved { canonical } => {
            if in_staging_dir(canonical) {
                StageActionModel::Done(Ok(canonical))
            } else if base_name(canonical).len() == 0 {
                StageActionModel::Done(Err(InjectionError::FileError))
            } else {
                StageActionModel::Copy { from: file_path, dest: staged_path(base_name(canonical)) }
            }
        },
        StageEventModel::CopyFailed => StageActionModel::Done(Err(InjectionError::FileError)),
        StageEventModel::Copied { dest } => StageActionModel::Done(Ok(dest)),
    }
}

/// Whether `path` lies in the staging directory, so that the target process
/// can already load it.
pub fn is_in_staging_dir(path: &str) -> (within: bool)
    ensures
        within == in_staging_dir(path@),
{
    let n: usize = path.unicode_len();
    let d: usize = TMP_DIR_PATH.unicode_len();
    if n < d {
        return false;
    }
    let mut i: usize = 0;
    while i < d
        invariant
            i <= d <= n,
            d == staging_dir().len(),
            n == path@.len(),
            forall|j: int| 0 <= j < i ==> path@[j] == staging_dir()[j],
        decreases d - i,
    {
        if path.get_char(i) != TMP_DIR_PATH.get_char(i) {
            return false;
        }
        i += 1;
    }
    assert(staging_dir().is_prefix_of(path@)) by {
        assert(path@.subrange(0, d as int) =~= staging_dir());
    }
    n == d || path.get_char(d) == '/'
}

/// The base name of `path`, or `None` where it has none.
pub fn file_name(path: &str) -> (name: Option<&str>)
    ensures
        match name {
            Some(n) => n@ == base_name(path@) && n@.len() > 0,
            None => base_name(path@).len() == 0,
        },
{
    let n: usize = path.unicode_len();
    let mut k: usize = n;
    while k > 0 && path.get_char(k - 1) != '/'
        invariant
            k <= n,
            n == path@.len(),
            forall|i: int| k <= i < n ==> path@[i] != '/',
        decreases k,
    {
        k -= 1;
    }
    proof {
        lemma_name_start_unique(path@, k as int);
    }
    if k == n {
        None
    } else {
        Some(path.substring_char(k, n))
    }
}

/// The destination of `name` directly below the staging directory.
pub fn staged_path_of(name: &str) -> (dest: String)
    ensures
        dest@ == staged_path(name@),
{
    let mut dest = String::from_str(TMP_DIR_PATH);
    dest.append("/");
    dest.append(name);
    proof {
        reveal_strlit("/");
        assert("/"@ =~= seq!['/']);
    }
    dest
}

/// One step of staging `file_path`: given what the caller's last action
/// brought, the next action to perform, or the final result.
pub fn copy_file_to_tmp(file_path: &str, event: StageEvent) -> (action: StageAction)
    ensures
        action@ == stage_step(file_path@, event@),
{
    match event {
        StageEvent::Start => StageAction::Resolve { path: String::from_str(file_path) },
        StageEvent::ResolveFailed => StageAction::Done(Err(InjectionError::FileError)),
        StageEvent::Resolved { canonical } => {
            if is_in_staging_dir(canonical.as_str()) {
                StageAction::Done(Ok(canonical))
            } else {
                match file_name(canonical.as_str()) {
                    None => StageAction::Done(Err(InjectionError::FileError)),
                    Some(name) => StageAction::Copy {
                        from: String::from_str(file_path),
                        dest: staged_path_of(name),
                    },
                }
            }
        },
        StageEvent::CopyFailed => StageAction::Done(Err(InjectionError::FileError)),
        StageEvent::Copied { dest } => StageAction::Done(Ok(dest)),
    }
}

/// `name_start` is the one index that follows a separator (or is 0) and has no
/// separator at or after it.
pub proof fn lemma_name_start(path: Seq<char>)
    ensures
        0 <= name_start(path) <= path.len(),
        name_start(path) > 0 ==> path[name_start(path) - 1] == '/',
        forall|i: int| name_start(path) <= i < path.len() ==> path[i] != '/',
    decreases path.len(),
{
    if path.len() > 0 && path.last() != '/' {
        let front = path.drop_last();
        lemma_name_start(front);
        assert forall|i: int| name_start(path) <= i < path.len() implies path[i] != '/' by {
            if i < front.len() {
                assert(path[i] == front[i]);
            }
        }
        if name_start(path) > 0 {
            assert(path[name_start(path) - 1] == front[name_start(front) - 1]);
        }
    }
}

/// Any index that follows a separator (or is 0) and has no separator at or
/// after it is `name_start`.
pub proof fn lemma_name_start_unique(path: Seq<char>, k: int)
    requires
        0 <= k <= path.len(),
        k > 0 ==> path[k - 1] == '/',
        forall|i: int| k <= i < path.len() ==> path[i] != '/',
    ensures
        name_start(path) == k,
    decreases path.len(),
{
    if path.len() > 0 && path.last() != '/' {
        let front = path.drop_last();
        assert(k < path.len()) by {
            if k == path.len() {
                assert(path[k - 1] == '/');
            }
        }
        assert forall|i: int| k <= i < front.len() implies front[i] != '/' by {
            assert(front[i] == path[i]);
        }
        if k > 0 {
            assert(front[k - 1] == path[k - 1]);
        }
        lemma_name_start_unique(front, k);
    } else if path.len() > 0 {
        if k < path.len() {
            assert(path[path.len() - 1] != '/');
        }
    }
}

/// A path directly below the staging directory lies in it, and its base name
/// is the name it was built from, provided the name holds no separator.
pub proof fn lemma_staged_path(name: Seq<char>)
    requires
        forall|i: int| 0 <= i < name.len() ==> name[i] != '/',
    ensures
        in_staging_dir(staged_path(name)),
        name_start(staged_path(name)) == staging_dir().len() + 1,
        base_name(staged_path(name)) == name,
        staged_path(name).subrange(0, staging_dir().len() as int) == staging_dir(),
{
    let dir = staging_dir();
    let dest = staged_path(name);
    let d = dir.len() as int;
    assert(dest.subrange(0, d) =~= dir);
    assert(dest[d] == '/');
    assert forall|i: int| d + 1 <= i < dest.len() implies dest[i] != '/' by {
        assert(dest[i] == name[i - d - 1]);
    }
    lemma_name_start_unique(dest, d + 1);
    assert(dest.subrange(d + 1, dest.len() as int) =~= name);
}

/// Staging leaves a file that already lies in the staging directory where it
/// is: the result is the canonical path itself, and no copy is asked for.
pub proof fn lemma_staged_file_is_left_alone(file_path: Seq<char>, canonical: Seq<char>)
    requires
        in_staging_dir(canonical),
    ensures
        stage_step(file_path, StageEventModel::Resolved { canonical })
            == StageActionModel::Done(Ok::<Seq<char>, InjectionError>(canonical)),
{
}

/// Staging is idempotent: the destination of a copy, staged again under any
/// name it is referred to by, is returned unchanged without another copy.
pub proof fn lemma_staging_twice_copies_once(
    file_path: Seq<char>,
    canonical: Seq<char>,
    staged_as: Seq<char>,
)
    ensures
        stage_step(file_path, StageEventModel::Resolved { canonical })
            matches StageActionModel::Copy { from, dest } ==> stage_step(
            staged_as,
            StageEventModel::Resolved { canonical: dest },
        ) == StageActionModel::Done(Ok::<Seq<char>, InjectionError>(dest)),
{
    lemma_name_start(canonical);
    if !in_staging_dir(canonical) && base_name(canonical).len() > 0 {
        lemma_staged_path(base_name(canonical));
    }
}

/// A copy reads the file under the path it was given as, and writes it
/// directly below the staging directory under the base name of the source.
pub proof fn lemma_copy_keeps_base_name(file_path: Seq<char>, canonical: Seq<char>)
    ensures
        stage_step(file_path, StageEventModel::Resolved { canonical })
            matches StageActionModel::Copy { from, dest } ==> {
            &&& from == file_path
            &&& !in_staging_dir(canonical)
            &&& base_name(dest) == base_name(canonical)
            &&& dest.subrange(0, name_start(dest) - 1) == staging_dir()
        },
{
    lemma_name_start(canonical);
    if !in_staging_dir(canonical) && base_name(canonical).len() > 0 {
        lemma_staged_path(base_name(canonical));
    }
}

/// Staging never fails with anything but a file error; in particular a path
/// that cannot be resolved is a file error.
pub proof fn lemma_staging_fails_with_file_error(file_path: Seq<char>, event: StageEventModel)
    ensures
        stage_step(file_path, event) matches StageActionModel::Done(Err(e)) ==> e
            == InjectionError::FileError,
        event is ResolveFailed ==> stage_step(file_path, event) == StageActionModel::Done(
            Err::<Seq<char>, InjectionError>(InjectionError::FileError),
        ),
{
}

} // verus!
