//! Reading the answer to the `status` command of a game server.

use crate::text::{
    chars_of, first_index_from, range_contains, spec_contains, spec_first_index, spec_head,
};
use vstd::prelude::*;

verus! {

/// Whether a line of the status report stands for a connected player: it
/// starts with `#`, is not the header of the table (`# userid`), and is not
/// the line of a bot.
pub open spec fn spec_is_player_line(line: Seq<char>) -> bool {
    &&& line.len() > 0
    &&& line[0] == '#'
    &&& !spec_contains(line, "# userid"@)
    &&& !spec_contains(line, " BOT "@)
}

/// The number of player lines among the lines of `status`, where a line ends
/// at a line feed or at the end of the text.
pub open spec fn spec_player_count(status: Seq<char>) -> nat
    decreases status.len(),
{
    let here: nat = if spec_is_player_line(spec_head(status, '\n')) {
        1
    } else {
        0
    };
    let end = spec_first_index(status, '\n');
    if 0 <= end < status.len() {
        here + spec_player_count(status.skip(end + 1))
    } else {
        here
    }
}

/// The number of players that a status report lists.
pub fn player_count(status: &str) -> (r: usize)
    ensures
        r == spec_player_count(status@),
{
    let v = chars_of(status);
    let header = chars_of("# userid");
    let bot = chars_of(" BOT ");
    let mut count: usize = 0;
    let mut pos: usize = 0;
    let mut done = false;
    assert(v@.skip(0) =~= v@);
    while !done
        invariant
            pos <= v.len(),
            count <= pos,
            header@ == "# userid"@,
            bot@ == " BOT "@,
            !done ==> count + spec_player_count(v@.skip(pos as int)) == spec_player_count(v@),
            done ==> count == spec_player_count(v@),
        decreases v.len() - pos + (if done { 0int } else { 1int }),
    {
        let end = first_index_from(&v, '\n', pos);
        let ghost rest = v@.skip(pos as int);
        proof {
            assert(spec_head(rest, '\n') =~= v@.subrange(pos as int, end as int));
        }
        let is_player = end > pos && v[pos] == '#' && !range_contains(&v, pos, end, &header)
            && !range_contains(&v, pos, end, &bot);
        if end < v.len() {
            proof {
                assert(rest.skip(end - pos + 1) =~= v@.skip(end + 1));
            }
            if is_player {
                count += 1;
            }
            pos = end + 1;
        } else {
            if is_player {
                count += 1;
            }
            pos = end;
            done = true;
        }
    }
    count
}

} // verus!
