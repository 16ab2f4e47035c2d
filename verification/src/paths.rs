//! Discovery of configuration file locations, in precedence order. The
//! directory values come from the environment outside the library; the
//! ordering and de-duplication are decided here.

use vstd::prelude::*;
use crate::chain::contains_name;
use crate::strutil::str_eq;

verus! {

/// The configuration path under an XDG configuration home: present when
/// the variable is set and non-empty.
pub open spec fn xdg_cfg_path(xdg_config_home: Option<Seq<char>>) -> Option<Seq<char>> {
    match xdg_config_home {
        Some(v) => if v.len() > 0 {
            Some(v + "/clai/config.toml"@)
        } else {
            None
        },
        None => None,
    }
}

/// The configuration path under the user's configuration directory.
pub open spec fn home_cfg_path(home_config_dir: Option<Seq<char>>) -> Option<Seq<char>> {
    match home_config_dir {
        Some(v) => Some(v + "/clai/config.toml"@),
        None => None,
    }
}

/// The discovered configuration paths, highest priority first: the
/// working directory, the XDG configuration home, the user configuration
/// directory (skipped when it repeats an earlier path), and the
/// system-wide location.
pub open spec fn discover_spec(
    xdg_config_home: Option<Seq<char>>,
    home_config_dir: Option<Seq<char>>,
) -> Seq<Seq<char>> {
    let base = seq!["./.clai.toml"@];
    let with_xdg = match xdg_cfg_path(xdg_config_home) {
        Some(p) => base.push(p),
        None => base,
    };
    let with_home = match home_cfg_path(home_config_dir) {
        Some(p) => if contains_name(with_xdg, p) {
            with_xdg
        } else {
            with_xdg.push(p)
        },
        None => with_xdg,
    };
    with_home.push("/etc/clai/config.toml"@)
}

fn join_config_path(dir: &str) -> (r: String)
    ensures
        r@ == dir@ + "/clai/config.toml"@,
{
    let mut r = dir.to_owned();
    r.append("/clai/config.toml");
    r
}

/// Discovers the configuration paths in precedence order, given the XDG
/// configuration home (the raw environment value) and the user
/// configuration directory, both probed outside the library.
pub fn discover_config_paths(xdg_config_home: Option<&str>, home_config_dir: Option<&str>) -> (r:
    Vec<String>)
    ensures
        r.deep_view() == discover_spec(
            match xdg_config_home {
                Some(v) => Some(v@),
                None => None,
            },
            match home_config_dir {
                Some(v) => Some(v@),
                None => None,
            },
        ),
{
    let mut paths: Vec<String> = Vec::new();
    paths.push("./.clai.toml".to_owned());
    let ghost base = seq!["./.clai.toml"@];
    proof {
        assert(paths.deep_view() =~= base);
    }
    match xdg_config_home {
        Some(v) => {
            if v.unicode_len() > 0 {
                let ghost prev = paths.deep_view();
                paths.push(join_config_path(v));
                proof {
                    assert(paths.deep_view() =~= prev.push(v@ + "/clai/config.toml"@));
                }
            }
        },
        None => {},
    }
    let ghost with_xdg = paths.deep_view();
    match home_config_dir {
        Some(v) => {
            let hp = join_config_path(v);
            let mut already = false;
            let mut i: usize = 0;
            while i < paths.len()
                invariant
                    0 <= i <= paths@.len(),
                    with_xdg == paths.deep_view(),
                    already == exists|j: int| 0 <= j < i && with_xdg[j] == hp@,
                decreases paths@.len() - i,
            {
                if str_eq(paths[i].as_str(), hp.as_str()) {
                    proof {
                        assert(with_xdg[i as int] == hp@);
                    }
                    already = true;
                }
                i = i + 1;
            }
            proof {
                assert(already == contains_name(with_xdg, hp@));
            }
            if !already {
                let ghost prev = paths.deep_view();
                paths.push(hp);
                proof {
                    assert(paths.deep_view() =~= prev.push(v@ + "/clai/config.toml"@));
                }
            }
        },
        None => {},
    }
    let ghost with_home = paths.deep_view();
    paths.push("/etc/clai/config.toml".to_owned());
    proof {
        assert(paths.deep_view() =~= with_home.push("/etc/clai/config.toml"@));
    }
    paths
}

} // verus!
