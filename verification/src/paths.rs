//! Where the session data and the configuration file live, computed from
//! the directories the platform reports.

use vstd::prelude::*;
use crate::text::push_str;

verus! {

/// A relative path `part` appended to `base`, with a `/` between them unless
/// `base` is empty or already ends with one (what `Path::join` does for a
/// relative part on Unix).
pub open spec fn join_spec(base: Seq<char>, part: Seq<char>) -> Seq<char> {
    if base.len() == 0 || base.last() == '/' {
        base + part
    } else {
        base + seq!['/'] + part
    }
}

fn push_path_part(s: &mut String, part: &str)
    ensures
        final(s)@ == join_spec(old(s)@, part@),
{
    let n = s.as_str().unicode_len();
    if n > 0 && s.as_str().get_char(n - 1) != '/' {
        let sep = "/";
        proof {
            reveal_strlit("/");
        }
        push_str(s, sep);
    }
    push_str(s, part);
}

pub open spec fn or_current_dir(dir: Option<String>) -> Seq<char> {
    match dir {
        Some(d) => d@,
        None => "."@,
    }
}

/// The directory where TDLib keeps the session: `tgrc/tdlib` under the
/// platform's data directory, or under the current directory when the
/// platform reports none.
pub fn db_dir(data_dir: Option<String>) -> (res: String)
    ensures
        res@ == join_spec(join_spec(or_current_dir(data_dir), "tgrc"@), "tdlib"@),
{
    let mut s = match data_dir {
        Some(d) => d,
        None => {
            let mut c = String::new();
            push_str(&mut c, ".");
            c
        },
    };
    push_path_part(&mut s, "tgrc");
    push_path_part(&mut s, "tdlib");
    s
}

/// The files tried as configuration, in order: `.config/tgrc/config.toml`
/// under the home directory, `tgrc/config.toml` under the platform's
/// configuration directory, and `config.toml` in the current directory; a
/// directory the platform does not report gives no candidate.
pub open spec fn config_candidates_spec(home_dir: Option<String>, config_dir: Option<String>) -> Seq<Seq<char>> {
    let home = match home_dir {
        Some(h) => seq![join_spec(join_spec(join_spec(h@, ".config"@), "tgrc"@), "config.toml"@)],
        None => Seq::empty(),
    };
    let config = match config_dir {
        Some(c) => seq![join_spec(join_spec(c@, "tgrc"@), "config.toml"@)],
        None => Seq::empty(),
    };
    home + config + seq!["config.toml"@]
}

/// The configuration files to try, in order.
pub fn config_candidates(home_dir: Option<String>, config_dir: Option<String>) -> (res: Vec<String>)
    ensures
        res@.map_values(|p: String| p@) == config_candidates_spec(home_dir, config_dir),
{
    let ghost h = home_dir;
    let ghost c = config_dir;
    let mut v: Vec<String> = Vec::new();
    match home_dir {
        Some(d) => {
            let mut s = d;
            push_path_part(&mut s, ".config");
            push_path_part(&mut s, "tgrc");
            push_path_part(&mut s, "config.toml");
            v.push(s);
        },
        None => {},
    }
    match config_dir {
        Some(d) => {
            let mut s = d;
            push_path_part(&mut s, "tgrc");
            push_path_part(&mut s, "config.toml");
            v.push(s);
        },
        None => {},
    }
    let mut local = String::new();
    push_str(&mut local, "config.toml");
    v.push(local);
    assert(v@.map_values(|p: String| p@) =~= config_candidates_spec(h, c));
    v
}

/// Which candidate file the configuration is loaded from: the first one
/// that exists (`exists[i]` tells whether candidate `i` does), or none. A
/// candidate that exists is used even if it cannot be read or parsed; the
/// later ones are not tried.
pub fn first_existing(exists: &Vec<bool>) -> (res: Option<usize>)
    ensures
        match res {
            Some(i) => i < exists@.len() && exists@[i as int]
                && forall|j: int| 0 <= j < i ==> !#[trigger] exists@[j],
            None => forall|j: int| 0 <= j < exists@.len() ==> !#[trigger] exists@[j],
        },
{
    let mut i: usize = 0;
    while i < exists.len()
        invariant
            i <= exists@.len(),
            forall|j: int| 0 <= j < i ==> !#[trigger] exists@[j],
        decreases exists@.len() - i,
    {
        if exists[i] {
            return Some(i);
        }
        i = i + 1;
    }
    None
}

} // verus!
