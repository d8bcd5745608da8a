//! The listing of the clip collections a user can reach.
use vstd::prelude::*;

use crate::text::{decimal, push_decimal};

verus! {

/// A guild as the listing shows it: its name and id.
#[derive(Clone, Debug)]
pub struct GuildLink {
    pub name: String,
    pub id: u64,
}

/// The line that links to the clips of `guild` under the site `web_uri`.
pub open spec fn link_line(web_uri: Seq<char>, guild: GuildLink) -> Seq<char> {
    "[**"@ + guild.name@ + "**]("@ + web_uri + "/clips/"@ + decimal(guild.id as nat) + ")\n"@
}

/// The lines of all of `guilds`, in order.
pub open spec fn link_lines(web_uri: Seq<char>, guilds: Seq<GuildLink>) -> Seq<char>
    decreases guilds.len(),
{
    if guilds.len() == 0 {
        Seq::empty()
    } else {
        link_lines(web_uri, guilds.drop_last()) + link_line(web_uri, guilds.last())
    }
}

/// The listing of `guilds`: one link line each, or a notice when there is
/// none.
pub fn list(web_uri: &str, guilds: &Vec<GuildLink>) -> (r: String)
    ensures
        r@ == (if guilds@.len() == 0 {
            "You have no mutual servers with this bot"@
        } else {
            link_lines(web_uri@, guilds@)
        }),
{
    if guilds.len() == 0 {
        return String::from_str("You have no mutual servers with this bot");
    }
    let mut content = String::new();
    let mut i: usize = 0;
    while i < guilds.len()
        invariant
            i <= guilds@.len(),
            content@ == link_lines(web_uri@, guilds@.subrange(0, i as int)),
        decreases guilds@.len() - i,
    {
        let ghost before = content@;
        let guild = &guilds[i];
        content.append("[**");
        content.append(guild.name.as_str());
        content.append("**](");
        content.append(web_uri);
        content.append("/clips/");
        push_decimal(&mut content, guild.id);
        content.append(")\n");
        proof {
            let s = guilds@.subrange(0, i + 1);
            assert(s.drop_last() =~= guilds@.subrange(0, i as int));
            assert(s.last() == guilds@[i as int]);
            assert(content@ =~= before + link_line(web_uri@, guilds@[i as int]));
        }
        i = i + 1;
    }
    assert(guilds@.subrange(0, guilds@.len() as int) =~= guilds@);
    content
}

} // verus!
