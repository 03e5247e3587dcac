//! Resolving the music directory from configuration: the command-line
//! directory wins over the configured list, and a leading tilde is
//! expanded to the home directory.

use vstd::prelude::*;

verus! {

/// The directory the configuration selects, before tilde expansion: the
/// command-line one when given, else the first configured one, else none.
pub open spec fn chosen_music_dir(
    music_dir: Seq<String>,
    music_dir_from_cli: Option<String>,
) -> Option<String> {
    match music_dir_from_cli {
        Some(d) => Some(d),
        None => if music_dir.len() > 0 {
            Some(music_dir[0])
        } else {
            None
        },
    }
}

/// Relies on shellexpand::tilde: a string that does not begin with `~`
/// comes back unchanged, as does a `~user` form it cannot resolve; only a
/// leading `~` alone or before `/` is replaced by the home directory,
/// which depends on the environment.
#[verifier::external_body]
fn tilde_expand(s: &String) -> (r: String)
    ensures
        !(s@.len() > 0 && s@[0] == '~') ==> r@ == s@,
        (s@.len() > 1 && s@[0] == '~' && s@[1] != '/') ==> r@ == s@,
{
    shellexpand::tilde(s.as_str()).to_string()
}

/// The full path of the music directory: the chosen directory with a
/// leading tilde expanded, or the empty string when none is configured.
pub fn get_full_path_from_config(
    music_dir: &Vec<String>,
    music_dir_from_cli: &Option<String>,
) -> (r: String)
    ensures
        ({
            let chosen = chosen_music_dir(music_dir@, *music_dir_from_cli);
            &&& chosen is None ==> r@ == Seq::<char>::empty()
            &&& (match chosen {
                Some(d) => !(d@.len() > 0 && d@[0] == '~') ==> r@ == d@,
                None => true,
            })
            &&& (match chosen {
                Some(d) => (d@.len() > 1 && d@[0] == '~' && d@[1] != '/') ==> r@ == d@,
                None => true,
            })
        }),
{
    match music_dir_from_cli {
        Some(dir) => tilde_expand(dir),
        None => {
            if music_dir.len() > 0 {
                tilde_expand(&music_dir[0])
            } else {
                String::new()
            }
        }
    }
}

} // verus!
