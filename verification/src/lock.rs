//! Where the lock files of the tray, the panel and the device live. Taking
//! the locks is the caller's part; this module decides the paths from the
//! environment the caller read.
use vstd::prelude::*;

verus! {

/// Held by whichever process owns the tray icon.
pub const TRAY_LOCK: &'static str = "lightcrazy-tray";
/// Held while the settings panel is open.
pub const UI_LOCK: &'static str = "lightcrazy-ui";
/// Held during every HID exchange that must not be interleaved.
pub const DEVICE_LOCK: &'static str = "lightcrazy-device";

/// What the lock path depends on.
#[derive(Debug, Clone)]
pub struct LockEnv {
    /// `$XDG_RUNTIME_DIR`, if set.
    pub runtime_dir: Option<String>,
    /// Whether `/run` exists.
    pub run_exists: bool,
    /// `$UID`, if set.
    pub uid: Option<String>,
    /// `$USER`, if set.
    pub user: Option<String>,
}

/// `base` joined with the path component `comp`, as `PathBuf::join` does
/// on Unix: an absolute component replaces the base, otherwise a separator
/// is put between them unless the base is empty or already ends in one.
pub open spec fn spec_join(base: Seq<char>, comp: Seq<char>) -> Seq<char> {
    if comp.len() > 0 && comp[0] == '/' {
        comp
    } else if base.len() > 0 && base.last() != '/' {
        base + seq!['/'] + comp
    } else {
        base + comp
    }
}

pub open spec fn or_default(v: Option<String>, d: Seq<char>) -> Seq<char> {
    match v {
        Some(s) => s@,
        None => d,
    }
}

/// The lock file of `name`: in `$XDG_RUNTIME_DIR` when it is set, else
/// under `/run/user/$UID` when `/run` exists, else `/tmp/{name}-$USER.lock`.
pub open spec fn spec_lock_path(name: Seq<char>, env: LockEnv) -> Seq<char> {
    match env.runtime_dir {
        Some(dir) => spec_join(dir@, name + ".lock"@),
        None => if env.run_exists {
            spec_join(spec_join("/run/user"@, or_default(env.uid, "0"@)), name + ".lock"@)
        } else {
            spec_join("/tmp"@, name + "-"@ + or_default(env.user, "unknown"@) + ".lock"@)
        },
    }
}

/// `base` joined with `comp` (see `spec_join`).
pub fn join_path(base: &str, comp: &str) -> (p: String)
    ensures
        p@ == spec_join(base@, comp@),
{
    let comp_len = comp.unicode_len();
    if comp_len > 0 && comp.get_char(0) == '/' {
        return String::from_str(comp);
    }
    let base_len = base.unicode_len();
    let mut p = String::from_str(base);
    if base_len > 0 && base.get_char(base_len - 1) != '/' {
        p.append("/");
        proof {
            reveal_strlit("/");
        }
    }
    p.append(comp);
    p
}

/// The path of lock `name` under `env` (see `spec_lock_path`).
pub fn lock_path(name: &str, env: &LockEnv) -> (p: String)
    ensures
        p@ == spec_lock_path(name@, *env),
{
    match &env.runtime_dir {
        Some(dir) => {
            let mut file = String::from_str(name);
            file.append(".lock");
            join_path(dir.as_str(), file.as_str())
        },
        None => if env.run_exists {
            let uid = match &env.uid {
                Some(u) => u.as_str(),
                None => "0",
            };
            let user_dir = join_path("/run/user", uid);
            let mut file = String::from_str(name);
            file.append(".lock");
            join_path(user_dir.as_str(), file.as_str())
        } else {
            let user = match &env.user {
                Some(u) => u.as_str(),
                None => "unknown",
            };
            let mut file = String::from_str(name);
            file.append("-");
            file.append(user);
            file.append(".lock");
            join_path("/tmp", file.as_str())
        },
    }
}


/// What `spec_join` puts before a relative component.
pub open spec fn join_prefix(base: Seq<char>) -> Seq<char> {
    if base.len() > 0 && base.last() != '/' {
        base + seq!['/']
    } else {
        base
    }
}

/// The directory part of the lock path and the file name's tail after the
/// lock name, both fixed by the environment.
pub open spec fn lock_dir(env: LockEnv) -> Seq<char> {
    match env.runtime_dir {
        Some(dir) => join_prefix(dir@),
        None => if env.run_exists {
            join_prefix(spec_join("/run/user"@, or_default(env.uid, "0"@)))
        } else {
            join_prefix("/tmp"@)
        },
    }
}

pub open spec fn lock_tail(env: LockEnv) -> Seq<char> {
    match env.runtime_dir {
        Some(_) => ".lock"@,
        None => if env.run_exists {
            ".lock"@
        } else {
            "-"@ + or_default(env.user, "unknown"@) + ".lock"@
        },
    }
}

pub open spec fn relative_name(name: Seq<char>) -> bool {
    name.len() == 0 || name[0] != '/'
}

proof fn lemma_lock_path_shape(name: Seq<char>, env: LockEnv)
    requires
        relative_name(name),
    ensures
        spec_lock_path(name, env) == lock_dir(env) + name + lock_tail(env),
{
    reveal_strlit(".lock");
    reveal_strlit("-");
    let tail = lock_tail(env);
    assert(tail.len() > 0 && tail[0] != '/');
    let comp = name + tail;
    assert(comp.len() > 0);
    assert(comp[0] != '/') by {
        if name.len() == 0 {
            assert(comp[0] == tail[0]);
        } else {
            assert(comp[0] == name[0]);
        }
    }
    match env.runtime_dir {
        Some(dir) => {
            assert(spec_join(dir@, comp) =~= join_prefix(dir@) + name + tail);
        },
        None => if env.run_exists {
            let base = spec_join("/run/user"@, or_default(env.uid, "0"@));
            assert(spec_join(base, comp) =~= join_prefix(base) + name + tail);
        } else {
            assert(name + "-"@ + or_default(env.user, "unknown"@) + ".lock"@ =~= comp);
            assert(spec_join("/tmp"@, comp) =~= join_prefix("/tmp"@) + name + tail);
        },
    }
}

/// Every lock path ends in ".lock".
pub proof fn law_lock_path_ends_with_lock(name: Seq<char>, env: LockEnv)
    requires
        relative_name(name),
    ensures
        ({
            let p = spec_lock_path(name, env);
            p.len() >= 5 && p.subrange(p.len() - 5, p.len() as int) == ".lock"@
        }),
{
    reveal_strlit(".lock");
    lemma_lock_path_shape(name, env);
    let p = spec_lock_path(name, env);
    let tail = lock_tail(env);
    assert(tail.subrange(tail.len() - 5, tail.len() as int) =~= ".lock"@);
    assert(p.subrange(p.len() - 5, p.len() as int) =~= ".lock"@);
}

/// Different lock names give different lock paths under the same
/// environment, so the tray, panel and device locks never share a file.
pub proof fn law_lock_paths_distinct(a: Seq<char>, b: Seq<char>, env: LockEnv)
    requires
        relative_name(a),
        relative_name(b),
        a != b,
    ensures
        spec_lock_path(a, env) != spec_lock_path(b, env),
{
    lemma_lock_path_shape(a, env);
    lemma_lock_path_shape(b, env);
    let d = lock_dir(env);
    let t = lock_tail(env);
    if spec_lock_path(a, env) == spec_lock_path(b, env) {
        let pa = d + a + t;
        let pb = d + b + t;
        assert(pa.len() == pb.len());
        assert(a.len() == b.len());
        assert forall|i: int| 0 <= i < a.len() implies a[i] == b[i] by {
            assert(pa[d.len() + i] == a[i]);
            assert(pb[d.len() + i] == b[i]);
        }
        assert(a =~= b);
    }
}

} // verus!
