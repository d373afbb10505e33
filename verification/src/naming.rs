//! Output filename construction and resource path resolution.

use vstd::prelude::*;
use vstd::string::StringExecFns;

verus! {

/// The filename derived from a composition request:
/// `"{tournament} - {round} - {p1} vs {p2}.{ext}"`, with the round part
/// omitted when the round name is empty.
pub open spec fn filename_spec(
    tournament_name: Seq<char>,
    round_name: Seq<char>,
    player_1: Seq<char>,
    player_2: Seq<char>,
    extension: Seq<char>,
) -> Seq<char> {
    if round_name.len() != 0 {
        tournament_name + " - "@ + round_name + " - "@ + player_1 + " vs "@ + player_2 + "."@
            + extension
    } else {
        tournament_name + " - "@ + player_1 + " vs "@ + player_2 + "."@ + extension
    }
}

/// A resource path resolved against a directory, with a forward-slash
/// separator.
pub open spec fn joined(dir: Seq<char>, name: Seq<char>) -> Seq<char> {
    dir + "/"@ + name
}

/// Joins a directory and a name with a forward slash.
pub fn path_join(dir: &String, name: &String) -> (r: String)
    ensures
        r@ == joined(dir@, name@),
{
    let mut r = dir.clone();
    r.append("/");
    r.append(name.as_str());
    r
}

/// The output artifact's filename for one request, in the given format.
pub fn get_filename(
    tournament_name: &str,
    round_name: &str,
    player_1: &str,
    player_2: &str,
    extension: &str,
) -> (r: String)
    ensures
        r@ == filename_spec(tournament_name@, round_name@, player_1@, player_2@, extension@),
{
    let mut r = tournament_name.to_owned();
    r.append(" - ");
    if !round_name.is_empty() {
        r.append(round_name);
        r.append(" - ");
    }
    r.append(player_1);
    r.append(" vs ");
    r.append(player_2);
    r.append(".");
    r.append(extension);
    r
}

} // verus!
