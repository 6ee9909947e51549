//! Subject routing: the pure, case-sensitive mapping from an envelope's
//! `event_type` to the broker subject it is published on.

use vstd::prelude::*;

use crate::text::str_eq;

verus! {

/// A dot in an event type becomes an underscore in the fallback subject.
pub open spec fn spec_subst_char(c: char) -> char {
    if c == '.' { '_' } else { c }
}

/// The event type with every `'.'` replaced by `'_'`.
pub open spec fn spec_underscored(t: Seq<char>) -> Seq<char> {
    t.map_values(|c: char| spec_subst_char(c))
}

/// The subject an event type routes to: the fixed table of §known event
/// types, and `events.<type with '.' replaced by '_'>` for anything else.
pub open spec fn spec_route(t: Seq<char>) -> Seq<char> {
    if t == "interaction.create"@ { "commands.interaction"@ }
    else if t == "guild.join"@ { "events.guild.join"@ }
    else if t == "guild.leave"@ { "events.guild.leave"@ }
    else if t == "guild.update"@ { "events.guild.update"@ }
    else if t == "member.join"@ { "events.member.join"@ }
    else if t == "member.leave"@ { "events.member.leave"@ }
    else if t == "member.update"@ { "events.member.update"@ }
    else { "events."@ + spec_underscored(t) }
}

/// Route an event type to its broker subject.
pub fn route_subject(event_type: &str) -> (r: String)
    ensures
        r@ == spec_route(event_type@),
{
    if str_eq(event_type, "interaction.create") {
        String::from_str("commands.interaction")
    } else if str_eq(event_type, "guild.join") {
        String::from_str("events.guild.join")
    } else if str_eq(event_type, "guild.leave") {
        String::from_str("events.guild.leave")
    } else if str_eq(event_type, "guild.update") {
        String::from_str("events.guild.update")
    } else if str_eq(event_type, "member.join") {
        String::from_str("events.member.join")
    } else if str_eq(event_type, "member.leave") {
        String::from_str("events.member.leave")
    } else if str_eq(event_type, "member.update") {
        String::from_str("events.member.update")
    } else {
        let mut s = String::from_str("events.");
        let n = event_type.unicode_len();
        let mut i: usize = 0;
        while i < n
            invariant
                n == event_type@.len(),
                i <= n,
                s@ == "events."@ + spec_underscored(event_type@.subrange(0, i as int)),
            decreases n - i,
        {
            let c = event_type.get_char(i);
            if c == '.' {
                proof {
                    reveal_strlit("_");
                }
                s.append("_");
            } else {
                let piece = event_type.substring_char(i, i + 1);
                s.append(piece);
            }
            proof {
                assert(spec_underscored(event_type@.subrange(0, i + 1 as int)) =~= spec_underscored(
                    event_type@.subrange(0, i as int),
                ) + seq![spec_subst_char(event_type@[i as int])]);
            }
            i += 1;
        }
        proof {
            assert(event_type@.subrange(0, n as int) =~= event_type@);
        }
        s
    }
}

} // verus!
