//! The decision core of each route, free of transport details.

pub mod admin;
pub mod health_check;
pub mod login;
pub mod subscriptions;
pub mod subscriptions_confirm;

pub use health_check::health_check;
pub use subscriptions::FormData;
pub use subscriptions::subscribe;
pub use subscriptions_confirm::confirm;

use crate::strutil::string_push;
use vstd::prelude::*;
use vstd::string::StringExecFns;

verus! {

/// The one-time messages joined into the block a form displays: one message
/// per line, no trailing line break.
pub open spec fn spec_flash_lines(messages: Seq<Seq<char>>) -> Seq<char>
    decreases messages.len(),
{
    if messages.len() == 0 {
        Seq::empty()
    } else if messages.len() == 1 {
        messages[0]
    } else {
        spec_flash_lines(messages.drop_last()) + "\n"@ + messages.last()
    }
}

/// Joins incoming one-time messages into the display block.
pub fn render_flash_lines(messages: &Vec<String>) -> (r: String)
    ensures
        r@ == spec_flash_lines(messages.deep_view()),
{
    let mut out = String::new();
    let mut i: usize = 0;
    while i < messages.len()
        invariant
            i <= messages@.len(),
            out@ == spec_flash_lines(messages.deep_view().take(i as int)),
        decreases messages@.len() - i,
    {
        if i > 0 {
            string_push(&mut out, '\n');
        }
        out.append(messages[i].as_str());
        proof {
            let all = messages.deep_view();
            assert(all.take(i + 1).drop_last() =~= all.take(i as int));
            assert(all.take(i + 1).last() == all[i as int]);
            assert(all[i as int] == messages@[i as int]@);
            if i > 0 {
                reveal_strlit("\n");
                assert("\n"@ =~= seq!['\n']);
                assert(out@ =~= spec_flash_lines(all.take(i as int)) + "\n"@ + all[i as int]);
            } else {
                assert(out@ =~= all[0]);
            }
        }
        i = i + 1;
    }
    proof {
        assert(messages.deep_view().take(messages@.len() as int) =~= messages.deep_view());
    }
    out
}

} // verus!
