use vstd::prelude::*;

use crate::html::{Html, ToRawHtml};

verus! {

/// What the page server keeps between requests: the page, and whether a
/// browser showing it must reload.
pub struct StateData<T> {
    pub data: T,
    pub refresh: bool,
}

impl<T> StateData<T> {
    pub fn new(data: T) -> (r: Self)
        ensures
            r.data == data,
            !r.refresh,
    {
        StateData { data, refresh: false }
    }
}

/// What a click on the page's button does to the state: the title gains
/// "aba", the rest of the page stays, and a reload is pending.
pub open spec fn action_step(pre: StateData<Html>, post: StateData<Html>) -> bool {
    &&& post.refresh
    &&& post.data.header.title@ == pre.data.header.title@ + "aba"@
    &&& post.data.header.description == pre.data.header.description
    &&& post.data.header.author == pre.data.header.author
    &&& post.data.body == pre.data.body
    &&& post.data.scripts == pre.data.scripts
}

/// What a poll for a pending reload does: it answers whether one was
/// pending, clears it, and leaves the page as it was.
pub open spec fn refresh_step(pre: StateData<Html>, post: StateData<Html>, answer: bool) -> bool {
    &&& answer == pre.refresh
    &&& !post.refresh
    &&& post.data == pre.data
}

/// The page as the server sends it.
pub fn root(state: &StateData<Html>) -> (r: String)
    ensures
        r@ == state.data.page(),
{
    state.data.build()
}

/// Handles a click: appends "aba" to the title and asks for a reload.
pub fn action(state: &mut StateData<Html>)
    ensures
        action_step(*old(state), *final(state)),
{
    state.refresh = true;
    state.data.header.title.append("aba");
}

/// Answers a poll: whether a reload is pending, which it clears.
pub fn refresh(state: &mut StateData<Html>) -> (r: bool)
    ensures
        refresh_step(*old(state), *final(state), r),
{
    let r = state.refresh;
    state.refresh = false;
    r
}

/// A poll that follows a click answers that the page must reload.
pub proof fn law_poll_after_click_reloads(
    s0: StateData<Html>,
    s1: StateData<Html>,
    s2: StateData<Html>,
    answer: bool,
)
    requires
        action_step(s0, s1),
        refresh_step(s1, s2, answer),
    ensures
        answer,
{
}

/// A reload is reported once: a second poll in a row answers no.
pub proof fn law_reload_reported_once(
    s0: StateData<Html>,
    s1: StateData<Html>,
    s2: StateData<Html>,
    first: bool,
    second: bool,
)
    requires
        refresh_step(s0, s1, first),
        refresh_step(s1, s2, second),
    ensures
        !second,
{
}

/// A poll does not change the page that the server sends.
pub proof fn law_poll_keeps_page(s0: StateData<Html>, s1: StateData<Html>, answer: bool)
    requires
        refresh_step(s0, s1, answer),
    ensures
        s1.data.page() == s0.data.page(),
{
}

/// A click changes the page only in its title line: the page after it is the
/// page of the same head with the longer title.
pub proof fn law_click_changes_only_title(s0: StateData<Html>, s1: StateData<Html>)
    requires
        action_step(s0, s1),
    ensures
        s1.data.page() == crate::html::page_html(
            crate::html::header_html(
                s0.data.header.title@ + "aba"@,
                s0.data.header.description@,
                s0.data.header.author@,
            ),
            crate::html::rendered(s0.data.body.elements@),
            s0.data.scripts.raw_html(),
        ),
{
}

/// A click keeps the title it found and adds the three characters 'a', 'b',
/// 'a' after it, and nothing else.
pub proof fn law_click_appends_aba(s0: StateData<Html>, s1: StateData<Html>)
    requires
        action_step(s0, s1),
    ensures
        s1.data.header.title@.len() == s0.data.header.title@.len() + 3,
        s1.data.header.title@.take(s0.data.header.title@.len() as int) == s0.data.header.title@,
        s1.data.header.title@.skip(s0.data.header.title@.len() as int) == seq!['a', 'b', 'a'],
{
    reveal_strlit("aba");
    assert(s1.data.header.title@.take(s0.data.header.title@.len() as int) =~= s0.data.header.title@);
    assert(s1.data.header.title@.skip(s0.data.header.title@.len() as int) =~= seq!['a', 'b', 'a']);
}

} // verus!
