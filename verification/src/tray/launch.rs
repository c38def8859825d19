//! Which terminal emulators to try, in which order and with which command
//! line, when the tray opens the settings panel. Spawning them and probing
//! the file system is the caller's part.
use vstd::prelude::*;
use crate::lock::{join_path, spec_join};
use vstd::seq_lib::lemma_no_dup_in_concat;

verus! {

/// The argument that opens the settings panel.
pub const OPTIONS_ARG: &'static str = "--options";

/// The models of a list of strings.
pub open spec fn strings_view(v: Seq<String>) -> Seq<Seq<char>> {
    v.map_values(|s: String| s@)
}

/// Whether two strings are equal.
pub fn text_eq(a: &str, b: &str) -> (r: bool)
    ensures
        r == (a@ == b@),
{
    let x = a.to_owned();
    let y = b.to_owned();
    x == y
}

/// The emulator that `$TERM` names, for the values that name one without doubt.
pub open spec fn spec_term_hint(term: Seq<char>) -> Option<Seq<char>> {
    if term == "alacritty"@ {
        Some("alacritty"@)
    } else if term == "foot"@ || term == "foot-extra"@ {
        Some("foot"@)
    } else if term == "xterm-kitty"@ {
        Some("kitty"@)
    } else if term == "wezterm"@ {
        Some("wezterm"@)
    } else if term == "xterm-ghostty"@ || term == "ghostty"@ {
        Some("ghostty"@)
    } else {
        None
    }
}

/// The emulator that `$TERM` names, if it names one without doubt.
pub fn term_hint(term: &str) -> (h: Option<&'static str>)
    ensures
        match (h, spec_term_hint(term@)) {
            (Some(a), Some(b)) => a@ == b,
            (None, None) => true,
            _ => false,
        },
{
    if text_eq(term, "alacritty") {
        Some("alacritty")
    } else if text_eq(term, "foot") || text_eq(term, "foot-extra") {
        Some("foot")
    } else if text_eq(term, "xterm-kitty") {
        Some("kitty")
    } else if text_eq(term, "wezterm") {
        Some("wezterm")
    } else if text_eq(term, "xterm-ghostty") || text_eq(term, "ghostty") {
        Some("ghostty")
    } else {
        None
    }
}

/// The emulators tried by name after `$TERMINAL` and the `$TERM` hint.
pub open spec fn fallback_terminals() -> Seq<Seq<char>> {
    seq![
        "kitty"@,
        "alacritty"@,
        "wezterm"@,
        "ghostty"@,
        "foot"@,
        "konsole"@,
        "gnome-terminal"@,
        "xterm"@,
    ]
}

/// The emulators looked for in the NixOS profile directories.
pub open spec fn nix_terminals() -> Seq<Seq<char>> {
    seq![
        "alacritty"@,
        "kitty"@,
        "foot"@,
        "wezterm"@,
        "ghostty"@,
        "konsole"@,
        "gnome-terminal"@,
        "xterm"@,
    ]
}

fn fallback_terminal(i: usize) -> (s: &'static str)
    requires
        i < 8,
    ensures
        s@ == fallback_terminals()[i as int],
{
    if i == 0 {
        "kitty"
    } else if i == 1 {
        "alacritty"
    } else if i == 2 {
        "wezterm"
    } else if i == 3 {
        "ghostty"
    } else if i == 4 {
        "foot"
    } else if i == 5 {
        "konsole"
    } else if i == 6 {
        "gnome-terminal"
    } else {
        "xterm"
    }
}

fn nix_terminal(i: usize) -> (s: &'static str)
    requires
        i < 8,
    ensures
        s@ == nix_terminals()[i as int],
{
    if i == 0 {
        "alacritty"
    } else if i == 1 {
        "kitty"
    } else if i == 2 {
        "foot"
    } else if i == 3 {
        "wezterm"
    } else if i == 4 {
        "ghostty"
    } else if i == 5 {
        "konsole"
    } else if i == 6 {
        "gnome-terminal"
    } else {
        "xterm"
    }
}

/// The entries of `list` that are not in `tried`, in order.
pub open spec fn untried(list: Seq<Seq<char>>, tried: Seq<Seq<char>>) -> Seq<Seq<char>>
    decreases list.len(),
{
    if list.len() == 0 {
        Seq::empty()
    } else {
        untried(list.drop_last(), tried) + if tried.contains(list.last()) {
            Seq::empty()
        } else {
            seq![list.last()]
        }
    }
}

/// `$TERMINAL` when set and not empty.
pub open spec fn explicit_choice(explicit: Option<Seq<char>>) -> Option<Seq<char>> {
    match explicit {
        Some(e) => if e.len() > 0 { Some(e) } else { None },
        None => None,
    }
}

pub open spec fn opt_seq(o: Option<Seq<char>>) -> Seq<Seq<char>> {
    match o {
        Some(x) => seq![x],
        None => Seq::empty(),
    }
}

/// The names already tried before the fallback list: `$TERMINAL` and the
/// `$TERM` hint, where present.
pub open spec fn tried_first(explicit: Option<Seq<char>>, term: Option<Seq<char>>) -> Seq<Seq<char>> {
    opt_seq(explicit_choice(explicit)) + opt_seq(
        match term {
            Some(t) => spec_term_hint(t),
            None => None,
        },
    )
}

/// The emulators to try by name, in order: `$TERMINAL` when set and not
/// empty; the `$TERM` hint unless it is that same name; then the fallback
/// list without those two.
pub open spec fn spec_launch_order(explicit: Option<Seq<char>>, term: Option<Seq<char>>) -> Seq<Seq<char>> {
    let e = explicit_choice(explicit);
    let h = match term {
        Some(t) => spec_term_hint(t),
        None => None,
    };
    opt_seq(e) + (match h {
        Some(x) => if e == Some(x) { Seq::empty() } else { seq![x] },
        None => Seq::empty(),
    }) + untried(fallback_terminals(), tried_first(explicit, term))
}

/// The model of an optional string.
pub open spec fn opt_view(o: Option<&str>) -> Option<Seq<char>> {
    match o {
        Some(s) => Some(s@),
        None => None,
    }
}

proof fn lemma_untried_step(list: Seq<Seq<char>>, tried: Seq<Seq<char>>, i: int)
    requires
        0 <= i < list.len(),
    ensures
        untried(list.take(i + 1), tried) == untried(list.take(i), tried) + if tried.contains(list[i]) {
            Seq::<Seq<char>>::empty()
        } else {
            seq![list[i]]
        },
{
    assert(list.take(i + 1).drop_last() =~= list.take(i));
}

/// Appends a copy of `s` to `v`.
fn push_text(v: &mut Vec<String>, s: &str)
    ensures
        strings_view(final(v)@) == strings_view(old(v)@).push(s@),
{
    let ghost v0 = v@;
    v.push(String::from_str(s));
    assert(strings_view(v@) =~= strings_view(v0).push(s@));
}

/// The emulators to try by name (see `spec_launch_order`).
pub fn launch_order(explicit: Option<&str>, term: Option<&str>) -> (v: Vec<String>)
    ensures
        strings_view(v@) == spec_launch_order(opt_view(explicit), opt_view(term)),
{
    let e: Option<&str> = match explicit {
        Some(x) => if x.is_empty() { None } else { Some(x) },
        None => None,
    };
    let h: Option<&str> = match term {
        Some(t) => term_hint(t),
        None => None,
    };
    let ghost ev = explicit_choice(opt_view(explicit));
    let ghost hv = match opt_view(term) {
        Some(t) => spec_term_hint(t),
        None => None,
    };
    assert(opt_view(e) == ev);
    assert(opt_view(h) == hv);
    let ghost tried = tried_first(opt_view(explicit), opt_view(term));
    assert(tried == opt_seq(ev) + opt_seq(hv));
    let mut v: Vec<String> = Vec::new();
    if let Some(x) = e {
        push_text(&mut v, x);
    }
    if let Some(x) = h {
        let same = match e {
            Some(y) => text_eq(x, y),
            None => false,
        };
        if !same {
            push_text(&mut v, x);
        }
    }
    let ghost prefix = strings_view(v@);
    assert(prefix =~= opt_seq(ev) + (match hv {
        Some(x) => if ev == Some(x) { Seq::<Seq<char>>::empty() } else { seq![x] },
        None => Seq::<Seq<char>>::empty(),
    }));
    let mut i: usize = 0;
    assert(fallback_terminals().take(0) =~= Seq::<Seq<char>>::empty());
    while i < 8
        invariant
            i <= 8,
            opt_view(e) == ev,
            opt_view(h) == hv,
            tried == opt_seq(ev) + opt_seq(hv),
            strings_view(v@) == prefix + untried(fallback_terminals().take(i as int), tried),
        decreases 8 - i,
    {
        let t = fallback_terminal(i);
        let in_e = match e {
            Some(y) => text_eq(t, y),
            None => false,
        };
        let in_h = match h {
            Some(y) => text_eq(t, y),
            None => false,
        };
        proof {
            lemma_untried_step(fallback_terminals(), tried, i as int);
            assert(tried.contains(t@) <==> (in_e || in_h)) by {
                if in_e {
                    assert(tried[0] == t@);
                }
                if in_h {
                    assert(tried[tried.len() - 1] == t@);
                }
                if tried.contains(t@) {
                    let k = choose|k: int| 0 <= k < tried.len() && #[trigger] tried[k] == t@;
                    if ev is Some && k == 0 {
                    } else {
                        assert(hv is Some);
                    }
                }
            }
        }
        if !(in_e || in_h) {
            push_text(&mut v, t);
        }
        proof {
            assert(strings_view(v@) =~= prefix + untried(fallback_terminals().take(i + 1), tried));
        }
        i = i + 1;
    }
    assert(fallback_terminals().take(8) =~= fallback_terminals());
    v
}

/// The command line that runs `bin` with `extra_args` in `terminal`.
pub open spec fn spec_terminal_command(terminal: Seq<char>, bin: Seq<char>, extra: Seq<Seq<char>>) -> Seq<Seq<char>> {
    seq![terminal] + (if terminal == "foot"@ {
        seq![bin]
    } else if terminal == "wezterm"@ {
        seq!["start"@, "--"@, bin]
    } else if terminal == "gnome-terminal"@ {
        seq!["--"@, bin]
    } else {
        seq!["-e"@, bin]
    }) + extra
}

/// The program and arguments that run `bin` with `extra_args` in
/// `terminal`: foot takes the command directly, wezterm after `start --`,
/// gnome-terminal after `--`, every other emulator after `-e`.
pub fn terminal_command(terminal: &str, bin: &str, extra_args: &[&str]) -> (v: Vec<String>)
    ensures
        strings_view(v@) == spec_terminal_command(
            terminal@,
            bin@,
            extra_args@.map_values(|a: &str| a@),
        ),
{
    let mut v: Vec<String> = Vec::new();
    push_text(&mut v, terminal);
    if text_eq(terminal, "foot") {
        push_text(&mut v, bin);
    } else if text_eq(terminal, "wezterm") {
        push_text(&mut v, "start");
        push_text(&mut v, "--");
        push_text(&mut v, bin);
    } else if text_eq(terminal, "gnome-terminal") {
        push_text(&mut v, "--");
        push_text(&mut v, bin);
    } else {
        push_text(&mut v, "-e");
        push_text(&mut v, bin);
    }
    let ghost head = strings_view(v@);
    let mut i: usize = 0;
    while i < extra_args.len()
        invariant
            i <= extra_args@.len(),
            strings_view(v@) == head + extra_args@.map_values(|a: &str| a@).take(i as int),
        decreases extra_args@.len() - i,
    {
        push_text(&mut v, extra_args[i]);
        proof {
            assert(extra_args@.map_values(|a: &str| a@).take(i + 1) =~= extra_args@.map_values(
                |a: &str| a@,
            ).take(i as int).push(extra_args@[i as int]@));
        }
        i = i + 1;
    }
    assert(extra_args@.map_values(|a: &str| a@).take(extra_args@.len() as int) =~= extra_args@.map_values(
        |a: &str| a@,
    ));
    v
}

/// The NixOS profile directories searched for an emulator.
pub open spec fn spec_nix_dirs(user: Seq<char>, home: Seq<char>) -> Seq<Seq<char>> {
    seq![
        "/etc/profiles/per-user/"@ + user + "/bin"@,
        home + "/.nix-profile/bin"@,
        "/run/current-system/sw/bin"@,
        "/nix/var/nix/profiles/default/bin"@,
    ]
}

/// Every directory of `dirs` joined with `name`.
pub open spec fn paths_in(dirs: Seq<Seq<char>>, name: Seq<char>) -> Seq<Seq<char>> {
    dirs.map_values(|d: Seq<char>| spec_join(d, name))
}

/// For each name in order, that name in each directory in order.
pub open spec fn candidate_paths(names: Seq<Seq<char>>, dirs: Seq<Seq<char>>) -> Seq<Seq<char>>
    decreases names.len(),
{
    if names.len() == 0 {
        Seq::empty()
    } else {
        candidate_paths(names.drop_last(), dirs) + paths_in(dirs, names.last())
    }
}

/// The paths probed for an emulator when none could be started by name:
/// each emulator not tried yet, in each NixOS profile directory. The first
/// that is a file is used.
pub open spec fn spec_nix_candidates(user: Seq<char>, home: Seq<char>, skip: Seq<Seq<char>>) -> Seq<Seq<char>> {
    candidate_paths(untried(nix_terminals(), skip), spec_nix_dirs(user, home))
}

proof fn lemma_candidate_paths_push(names: Seq<Seq<char>>, x: Seq<char>, dirs: Seq<Seq<char>>)
    ensures
        candidate_paths(names.push(x), dirs) == candidate_paths(names, dirs) + paths_in(dirs, x),
{
    assert(names.push(x).drop_last() =~= names);
}

/// The paths probed for an emulator (see `spec_nix_candidates`); `skip`
/// holds the names already tried.
pub fn nix_candidates(user: &str, home: &str, skip: &Vec<String>) -> (v: Vec<String>)
    ensures
        strings_view(v@) == spec_nix_candidates(user@, home@, strings_view(skip@)),
{
    let mut dirs: Vec<String> = Vec::new();
    let mut d0 = String::from_str("/etc/profiles/per-user/");
    d0.append(user);
    d0.append("/bin");
    dirs.push(d0);
    let mut d1 = String::from_str(home);
    d1.append("/.nix-profile/bin");
    dirs.push(d1);
    dirs.push(String::from_str("/run/current-system/sw/bin"));
    dirs.push(String::from_str("/nix/var/nix/profiles/default/bin"));
    let ghost dv = spec_nix_dirs(user@, home@);
    assert(strings_view(dirs@) =~= dv);
    let ghost sk = strings_view(skip@);
    let ghost names = Seq::<Seq<char>>::empty();
    let mut v: Vec<String> = Vec::new();
    let mut i: usize = 0;
    assert(nix_terminals().take(0) =~= Seq::<Seq<char>>::empty());
    while i < 8
        invariant
            i <= 8,
            strings_view(dirs@) == dv,
            dirs@.len() == 4,
            sk == strings_view(skip@),
            strings_view(v@) == candidate_paths(untried(nix_terminals().take(i as int), sk), dv),
        decreases 8 - i,
    {
        let name = nix_terminal(i);
        let mut skipped = false;
        let mut k: usize = 0;
        while k < skip.len()
            invariant
                k <= skip@.len(),
                sk == strings_view(skip@),
                skipped == sk.take(k as int).contains(name@),
            decreases skip@.len() - k,
        {
            if text_eq(skip[k].as_str(), name) {
                skipped = true;
            }
            proof {
                assert(sk.take(k + 1) =~= sk.take(k as int).push(skip@[k as int]@));
                if skipped && !sk.take(k as int).contains(name@) {
                    assert(sk.take(k + 1)[k as int] == name@);
                }
                if sk.take(k + 1).contains(name@) && !sk.take(k as int).contains(name@) {
                    let j = choose|j: int| 0 <= j < k + 1 && #[trigger] sk.take(k + 1)[j] == name@;
                    if j < k {
                        assert(sk.take(k as int)[j] == name@);
                    }
                }
            }
            k = k + 1;
        }
        assert(sk.take(skip@.len() as int) =~= sk);
        proof {
            lemma_untried_step(nix_terminals(), sk, i as int);
        }
        if !skipped {
            let ghost before = strings_view(v@);
            let mut j: usize = 0;
            while j < 4
                invariant
                    j <= 4,
                    strings_view(dirs@) == dv,
                    dirs@.len() == 4,
                    strings_view(v@) == before + paths_in(dv, name@).take(j as int),
                decreases 4 - j,
            {
                let p = join_path(dirs[j].as_str(), name);
                let ghost v0 = v@;
                v.push(p);
                proof {
                    assert(strings_view(v@) =~= strings_view(v0).push(p@));
                    assert(paths_in(dv, name@).take(j + 1) =~= paths_in(dv, name@).take(j as int).push(
                        spec_join(dv[j as int], name@),
                    ));
                }
                j = j + 1;
            }
            proof {
                assert(paths_in(dv, name@).take(4) =~= paths_in(dv, name@));
                lemma_candidate_paths_push(untried(nix_terminals().take(i as int), sk), name@, dv);
            }
        }
        proof {
            let u = untried(nix_terminals().take(i as int), sk);
            if skipped {
                assert(untried(nix_terminals().take(i + 1), sk) =~= u);
            } else {
                assert(untried(nix_terminals().take(i + 1), sk) =~= u.push(name@));
            }
            assert(strings_view(v@) == candidate_paths(untried(nix_terminals().take(i + 1), sk), dv));
        }
        i = i + 1;
    }
    assert(nix_terminals().take(8) =~= nix_terminals());
    v
}


/// The names tried before the fallback list (see `tried_first`); the NixOS
/// probe skips them.
pub fn tried_first_names(explicit: Option<&str>, term: Option<&str>) -> (v: Vec<String>)
    ensures
        strings_view(v@) == tried_first(opt_view(explicit), opt_view(term)),
{
    let mut v: Vec<String> = Vec::new();
    if let Some(e) = explicit {
        if !e.is_empty() {
            push_text(&mut v, e);
        }
    }
    if let Some(t) = term {
        if let Some(h) = term_hint(t) {
            push_text(&mut v, h);
        }
    }
    assert(strings_view(v@) =~= tried_first(opt_view(explicit), opt_view(term)));
    v
}

/// What `untried` keeps is from `list` and not in `tried`, and a list
/// without repeats keeps none.
proof fn lemma_untried_members(list: Seq<Seq<char>>, tried: Seq<Seq<char>>)
    ensures
        forall|k: int|
            0 <= k < untried(list, tried).len() ==> list.contains(#[trigger] untried(list, tried)[k])
                && !tried.contains(untried(list, tried)[k]),
        list.no_duplicates() ==> untried(list, tried).no_duplicates(),
    decreases list.len(),
{
    if list.len() > 0 {
        let init = list.drop_last();
        let x = list.last();
        lemma_untried_members(init, tried);
        let u = untried(init, tried);
        assert forall|k: int| 0 <= k < u.len() implies list.contains(#[trigger] u[k]) by {
            let j = choose|j: int| 0 <= j < init.len() && init[j] == u[k];
            assert(list[j] == u[k]);
        }
        assert(list[list.len() - 1] == x);
        if list.no_duplicates() {
            assert(init.no_duplicates());
            assert forall|k: int| 0 <= k < u.len() implies #[trigger] u[k] != x by {
                let j = choose|j: int| 0 <= j < init.len() && init[j] == u[k];
                assert(list[j] == init[j]);
            }
            if !tried.contains(x) {
                lemma_no_dup_in_concat(u, seq![x]);
            }
        }
        if tried.contains(x) {
            assert(untried(list, tried) =~= u);
        } else {
            assert(untried(list, tried) =~= u + seq![x]);
        }
    }
}

/// No emulator is tried twice: the `$TERM` hint is skipped when it is
/// `$TERMINAL`, and the fallback list skips both.
pub proof fn law_launch_order_no_repeats(explicit: Option<Seq<char>>, term: Option<Seq<char>>)
    ensures
        spec_launch_order(explicit, term).no_duplicates(),
{
    reveal_strlit("kitty");
    reveal_strlit("alacritty");
    reveal_strlit("wezterm");
    reveal_strlit("ghostty");
    reveal_strlit("foot");
    reveal_strlit("konsole");
    reveal_strlit("gnome-terminal");
    reveal_strlit("xterm");
    let fb = fallback_terminals();
    assert(fb.no_duplicates()) by {
        assert forall|i: int, j: int| 0 <= i < fb.len() && 0 <= j < fb.len() && i != j implies fb[i] != fb[j] by {
            if fb[i] == fb[j] {
                assert(fb[i].len() == fb[j].len());
                assert(fb[i][0] == fb[j][0]);
                assert(fb[i][1] == fb[j][1]);
            }
        }
    }
    let e = explicit_choice(explicit);
    let h = match term {
        Some(t) => spec_term_hint(t),
        None => None,
    };
    let tried = tried_first(explicit, term);
    let hpart: Seq<Seq<char>> = match h {
        Some(x) => if e == Some(x) { Seq::empty() } else { seq![x] },
        None => Seq::empty(),
    };
    let prefix = opt_seq(e) + hpart;
    let rest = untried(fb, tried);
    lemma_untried_members(fb, tried);
    assert(prefix.no_duplicates());
    assert forall|i: int, j: int| 0 <= i < prefix.len() && 0 <= j < rest.len() implies prefix[i] != rest[j] by {
        assert(tried.contains(prefix[i])) by {
            if e is Some && i == 0 {
                assert(tried[0] == prefix[i]);
            } else {
                assert(tried[tried.len() - 1] == prefix[i]);
            }
        }
    }
    lemma_no_dup_in_concat(prefix, rest);
    assert(spec_launch_order(explicit, term) =~= prefix + rest);
}

/// The `$TERM` values that name an emulator, and the emulator each names:
/// alacritty, foot and foot-extra, xterm-kitty, wezterm, and xterm-ghostty
/// and ghostty. Every other value names none.
pub proof fn law_term_hint_table(term: Seq<char>)
    ensures
        spec_term_hint("alacritty"@) == Some("alacritty"@),
        spec_term_hint("foot"@) == Some("foot"@),
        spec_term_hint("foot-extra"@) == Some("foot"@),
        spec_term_hint("xterm-kitty"@) == Some("kitty"@),
        spec_term_hint("wezterm"@) == Some("wezterm"@),
        spec_term_hint("xterm-ghostty"@) == Some("ghostty"@),
        spec_term_hint("ghostty"@) == Some("ghostty"@),
        (term != "alacritty"@ && term != "foot"@ && term != "foot-extra"@ && term != "xterm-kitty"@
            && term != "wezterm"@ && term != "xterm-ghostty"@ && term != "ghostty"@) ==> spec_term_hint(term) is None,
{
    reveal_strlit("alacritty");
    reveal_strlit("foot");
    reveal_strlit("foot-extra");
    reveal_strlit("xterm-kitty");
    reveal_strlit("wezterm");
    reveal_strlit("xterm-ghostty");
    reveal_strlit("ghostty");
    assert("foot-extra"@ != "foot"@) by {
        assert("foot-extra"@.len() != "foot"@.len());
    }
    assert("xterm-kitty"@ != "alacritty"@ && "xterm-kitty"@ != "foot"@ && "xterm-kitty"@ != "foot-extra"@) by {
        assert("xterm-kitty"@[0] != "alacritty"@[0] && "xterm-kitty"@.len() != "foot"@.len()
            && "xterm-kitty"@[0] != "foot-extra"@[0]);
    }
    assert("wezterm"@ != "alacritty"@ && "wezterm"@ != "foot"@ && "wezterm"@ != "foot-extra"@
        && "wezterm"@ != "xterm-kitty"@) by {
        assert("wezterm"@[0] != "alacritty"@[0] && "wezterm"@[0] != "foot"@[0] && "wezterm"@[0]
            != "foot-extra"@[0] && "wezterm"@[0] != "xterm-kitty"@[0]);
    }
    assert("xterm-ghostty"@ != "alacritty"@ && "xterm-ghostty"@ != "foot"@ && "xterm-ghostty"@ != "foot-extra"@
        && "xterm-ghostty"@ != "xterm-kitty"@ && "xterm-ghostty"@ != "wezterm"@) by {
        assert("xterm-ghostty"@[0] != "alacritty"@[0] && "xterm-ghostty"@[0] != "foot"@[0]
            && "xterm-ghostty"@[0] != "foot-extra"@[0] && "xterm-ghostty"@[6] != "xterm-kitty"@[6]
            && "xterm-ghostty"@[0] != "wezterm"@[0]);
    }
    assert("ghostty"@ != "alacritty"@ && "ghostty"@ != "foot"@ && "ghostty"@ != "foot-extra"@
        && "ghostty"@ != "xterm-kitty"@ && "ghostty"@ != "wezterm"@) by {
        assert("ghostty"@[0] != "alacritty"@[0] && "ghostty"@[0] != "foot"@[0] && "ghostty"@[0]
            != "foot-extra"@[0] && "ghostty"@[0] != "xterm-kitty"@[0] && "ghostty"@[0] != "wezterm"@[0]);
    }
}

/// With `$TERMINAL` unset or empty, an emulator named by `$TERM` is the
/// first one tried.
pub proof fn law_hint_tried_first(explicit: Option<Seq<char>>, term: Seq<char>, hint: Seq<char>)
    requires
        explicit_choice(explicit) is None,
        spec_term_hint(term) == Some(hint),
    ensures
        spec_launch_order(explicit, Some(term)).len() > 0,
        spec_launch_order(explicit, Some(term))[0] == hint,
{
    let rest = untried(fallback_terminals(), tried_first(explicit, Some(term)));
    assert(spec_launch_order(explicit, Some(term)) =~= seq![hint] + rest);
}

} // verus!
