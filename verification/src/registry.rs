//! The registry of hook callbacks: the ids under which callbacks are
//! registered, what the handshake tells the peer of them, and the table that
//! the peer's requests are looked up in.

use crate::hooks::{hooks_view, HookCallback, HookEvent, HookMatcher, HookMatcherView};
use crate::json::{items_view, members_view, Json, JsonValue};
use crate::table::KeyedTable;
use crate::text::{
    decimal, is_digit, lemma_decimal_injective, lemma_decimal_is_decimal, u64_to_string, views,
};
use vstd::prelude::*;
use vstd::string::StringExecFns;

verus! {

/// The id under which a hook callback is registered: the event's name in
/// double quotes, then the place of its matcher among the event's matchers
/// and its own place among the matcher's callbacks, each after an underscore.
pub open spec fn callback_id_text(event: HookEvent, matcher_idx: nat, callback_idx: nat) -> Seq<
    char,
> {
    "\""@ + event.wire_name() + "\"_"@ + decimal(matcher_idx) + "_"@ + decimal(callback_idx)
}

/// The ids of the callbacks of one matcher, in order.
pub open spec fn callback_ids(event: HookEvent, matcher_idx: nat, count: nat) -> Seq<Seq<char>> {
    Seq::new(count, |j: int| callback_id_text(event, matcher_idx, j as nat))
}

/// What the handshake says of one matcher: its pattern and its timeout, each
/// where there is one, and the ids of its callbacks where it has any.
pub open spec fn matcher_config(event: HookEvent, matcher_idx: nat, matcher: HookMatcherView) -> JsonValue {
    JsonValue::empty_object().with_opt(
        "matcher"@,
        match matcher.matcher {
            Some(pattern) => Some(JsonValue::String(pattern)),
            None => None,
        },
    ).with_opt("timeout"@, matcher.timeout).with_opt(
        "callbackIds"@,
        if matcher.hooks.len() > 0 {
            Some(JsonValue::of_strings(callback_ids(event, matcher_idx, matcher.hooks.len())))
        } else {
            None
        },
    )
}

/// What the handshake says of one event: its matchers, in order.
pub open spec fn event_config(event: HookEvent, matchers: Seq<HookMatcherView>) -> JsonValue {
    JsonValue::Array(
        Seq::new(matchers.len(), |k: int| matcher_config(event, k as nat, matchers[k])),
    )
}

/// What the handshake says of the hooks: an object with a member for each
/// entry of the list, in order, under the name of its event. Where an event
/// stands twice, the later member hides the earlier one.
pub open spec fn hooks_config(hooks: Seq<(HookEvent, Seq<HookMatcherView>)>) -> JsonValue {
    JsonValue::Object(
        Seq::new(
            hooks.len(),
            |i: int| (hooks[i].0.wire_name(), event_config(hooks[i].0, hooks[i].1)),
        ),
    )
}

/// The table once the callbacks of one matcher are registered, in order.
pub open spec fn with_matcher_callbacks(
    callbacks: Map<Seq<char>, HookCallback>,
    event: HookEvent,
    matcher_idx: nat,
    hooks: Seq<HookCallback>,
) -> Map<Seq<char>, HookCallback>
    decreases hooks.len(),
{
    if hooks.len() == 0 {
        callbacks
    } else {
        with_matcher_callbacks(callbacks, event, matcher_idx, hooks.drop_last()).insert(
            callback_id_text(event, matcher_idx, (hooks.len() - 1) as nat),
            hooks.last(),
        )
    }
}

/// The table once the callbacks of the matchers of one event are registered.
pub open spec fn with_event_callbacks(
    callbacks: Map<Seq<char>, HookCallback>,
    event: HookEvent,
    matchers: Seq<HookMatcherView>,
) -> Map<Seq<char>, HookCallback>
    decreases matchers.len(),
{
    if matchers.len() == 0 {
        callbacks
    } else {
        with_matcher_callbacks(
            with_event_callbacks(callbacks, event, matchers.drop_last()),
            event,
            (matchers.len() - 1) as nat,
            matchers.last().hooks,
        )
    }
}

/// The table once all the callbacks of the hooks are registered.
pub open spec fn with_hook_callbacks(
    callbacks: Map<Seq<char>, HookCallback>,
    hooks: Seq<(HookEvent, Seq<HookMatcherView>)>,
) -> Map<Seq<char>, HookCallback>
    decreases hooks.len(),
{
    if hooks.len() == 0 {
        callbacks
    } else {
        with_event_callbacks(
            with_hook_callbacks(callbacks, hooks.drop_last()),
            hooks.last().0,
            hooks.last().1,
        )
    }
}

/// The id under which a hook callback is registered.
pub fn callback_id(event: HookEvent, matcher_idx: usize, callback_idx: usize) -> (r: String)
    ensures
        r@ == callback_id_text(event, matcher_idx as nat, callback_idx as nat),
{
    let mut id = String::from_str("\"");
    id.append(event.as_str());
    id.append("\"_");
    let m = u64_to_string(matcher_idx as u64);
    id.append(m.as_str());
    id.append("_");
    let c = u64_to_string(callback_idx as u64);
    id.append(c.as_str());
    id
}

/// Registers the callbacks of one matcher and gives their ids, in order.
fn register_matcher(
    callbacks: &mut KeyedTable<HookCallback>,
    event: HookEvent,
    matcher_idx: usize,
    hooks: &Vec<HookCallback>,
) -> (ids: Vec<String>)
    ensures
        final(callbacks)@ == with_matcher_callbacks(
            old(callbacks)@,
            event,
            matcher_idx as nat,
            hooks@,
        ),
        views(ids@) == callback_ids(event, matcher_idx as nat, hooks@.len()),
{
    let mut ids: Vec<String> = Vec::new();
    let mut j: usize = 0;
    proof {
        assert(hooks@.subrange(0, 0) =~= Seq::empty());
    }
    while j < hooks.len()
        invariant
            0 <= j <= hooks.len(),
            ids@.len() == j,
            forall|k: int|
                0 <= k < j ==> (#[trigger] ids@[k])@ == callback_id_text(
                    event,
                    matcher_idx as nat,
                    k as nat,
                ),
            callbacks@ == with_matcher_callbacks(
                old(callbacks)@,
                event,
                matcher_idx as nat,
                hooks@.subrange(0, j as int),
            ),
        decreases hooks.len() - j,
    {
        proof {
            let t = hooks@.subrange(0, j as int + 1);
            assert(t.drop_last() =~= hooks@.subrange(0, j as int));
            assert(t.last() == hooks@[j as int]);
        }
        let id = callback_id(event, matcher_idx, j);
        ids.push(id.clone());
        callbacks.insert(id, hooks[j]);
        j += 1;
    }
    proof {
        assert(hooks@.subrange(0, hooks.len() as int) =~= hooks@);
        assert(views(ids@) =~= callback_ids(event, matcher_idx as nat, hooks@.len()));
    }
    ids
}

/// Registers the callbacks of the matchers of one event and gives what the
/// handshake says of the event.
fn register_event(
    callbacks: &mut KeyedTable<HookCallback>,
    event: HookEvent,
    matchers: &Vec<HookMatcher>,
) -> (config: Json)
    ensures
        final(callbacks)@ == with_event_callbacks(old(callbacks)@, event, views(matchers@)),
        config@ == event_config(event, views(matchers@)),
{
    let ghost models = views(matchers@);
    let mut configs: Vec<Json> = Vec::new();
    let mut k: usize = 0;
    proof {
        assert(models.subrange(0, 0) =~= Seq::empty());
    }
    while k < matchers.len()
        invariant
            0 <= k <= matchers.len(),
            models == views(matchers@),
            configs@.len() == k,
            forall|i: int|
                0 <= i < k ==> (#[trigger] configs@[i])@ == matcher_config(
                    event,
                    i as nat,
                    models[i],
                ),
            callbacks@ == with_event_callbacks(old(callbacks)@, event, models.subrange(0, k as int)),
        decreases matchers.len() - k,
    {
        proof {
            let t = models.subrange(0, k as int + 1);
            assert(t.drop_last() =~= models.subrange(0, k as int));
            assert(t.last() == matchers@[k as int]@);
        }
        let matcher = &matchers[k];
        let mut config = Json::object();
        match &matcher.matcher {
            Some(pattern) => config.insert("matcher", Json::String(pattern.clone())),
            None => {},
        }
        match &matcher.timeout {
            Some(timeout) => config.insert("timeout", timeout.clone()),
            None => {},
        }
        let ids = register_matcher(callbacks, event, k, &matcher.hooks);
        if ids.len() > 0 {
            config.insert("callbackIds", Json::of_strings(&ids));
        }
        configs.push(config);
        k += 1;
    }
    proof {
        assert(models.subrange(0, matchers.len() as int) =~= models);
        assert(items_view(configs@) =~= Seq::new(
            models.len(),
            |k: int| matcher_config(event, k as nat, models[k]),
        ));
    }
    Json::Array(configs)
}

/// Registers all the callbacks of the hooks and gives what the handshake
/// says of the hooks.
pub fn register_hooks(
    callbacks: &mut KeyedTable<HookCallback>,
    hooks: &Vec<(HookEvent, Vec<HookMatcher>)>,
) -> (config: Json)
    ensures
        final(callbacks)@ == with_hook_callbacks(old(callbacks)@, hooks_view(hooks@)),
        config@ == hooks_config(hooks_view(hooks@)),
{
    let ghost models = hooks_view(hooks@);
    let mut members: Vec<(String, Json)> = Vec::new();
    let mut i: usize = 0;
    proof {
        assert(models.subrange(0, 0) =~= Seq::empty());
    }
    while i < hooks.len()
        invariant
            0 <= i <= hooks.len(),
            models == hooks_view(hooks@),
            members@.len() == i,
            forall|k: int|
                0 <= k < i ==> (#[trigger] members@[k]).0@ == models[k].0.wire_name()
                    && members@[k].1@ == event_config(models[k].0, models[k].1),
            callbacks@ == with_hook_callbacks(old(callbacks)@, models.subrange(0, i as int)),
        decreases hooks.len() - i,
    {
        proof {
            let t = models.subrange(0, i as int + 1);
            assert(t.drop_last() =~= models.subrange(0, i as int));
            assert(t.last() == (hooks@[i as int].0, views(hooks@[i as int].1@)));
        }
        let event = hooks[i].0;
        let config = register_event(callbacks, event, &hooks[i].1);
        members.push((String::from_str(event.as_str()), config));
        i += 1;
    }
    proof {
        assert(models.subrange(0, hooks.len() as int) =~= models);
        assert(members_view(members@) =~= Seq::new(
            models.len(),
            |i: int| (models[i].0.wire_name(), event_config(models[i].0, models[i].1)),
        ));
    }
    Json::Object(members)
}

/// What is known of the names of the events: their lengths, and that they
/// are made of letters.
proof fn lemma_event_names(event: HookEvent)
    ensures
        4 <= event.wire_name().len() <= 18,
        forall|i: int|
            0 <= i < event.wire_name().len() ==> 'A' <= #[trigger] event.wire_name()[i] <= 'z',
        event.wire_name().len() == match event {
            HookEvent::PreToolUse => 10nat,
            HookEvent::PostToolUse => 11,
            HookEvent::PostToolUseFailure => 18,
            HookEvent::UserPromptSubmit => 16,
            HookEvent::Stop => 4,
            HookEvent::SubagentStop => 12,
            HookEvent::PreCompact => 10,
        },
        event.wire_name()[3] == match event {
            HookEvent::PreToolUse => 'T',
            HookEvent::PostToolUse => 't',
            HookEvent::PostToolUseFailure => 't',
            HookEvent::UserPromptSubmit => 'r',
            HookEvent::Stop => 'p',
            HookEvent::SubagentStop => 'a',
            HookEvent::PreCompact => 'C',
        },
{
    reveal_strlit("PreToolUse");
    reveal_strlit("PostToolUse");
    reveal_strlit("PostToolUseFailure");
    reveal_strlit("UserPromptSubmit");
    reveal_strlit("Stop");
    reveal_strlit("SubagentStop");
    reveal_strlit("PreCompact");
}

/// The numbers of a callback id, as they stand after the event's name.
pub open spec fn callback_id_tail(matcher_idx: nat, callback_idx: nat) -> Seq<char> {
    decimal(matcher_idx) + "_"@ + decimal(callback_idx)
}

/// The numbers of two callback ids read the same only where they are the same.
proof fn lemma_callback_id_tails_differ(k1: nat, j1: nat, k2: nat, j2: nat)
    requires
        callback_id_tail(k1, j1) == callback_id_tail(k2, j2),
    ensures
        k1 == k2,
        j1 == j2,
{
    reveal_strlit("_");
    let a1 = decimal(k1);
    let a2 = decimal(k2);
    let b1 = decimal(j1);
    let b2 = decimal(j2);
    let x = callback_id_tail(k1, j1);
    let y = callback_id_tail(k2, j2);
    lemma_decimal_is_decimal(k1);
    lemma_decimal_is_decimal(k2);
    assert forall|i: int| 0 <= i < a1.len() implies x[i] == a1[i] by {}
    assert forall|i: int| 0 <= i < a2.len() implies y[i] == a2[i] by {}
    assert(x[a1.len() as int] == '_');
    assert(y[a2.len() as int] == '_');
    if a1.len() < a2.len() {
        assert(y[a1.len() as int] == a2[a1.len() as int]);
        assert(is_digit(a2[a1.len() as int]));
    } else if a2.len() < a1.len() {
        assert(x[a2.len() as int] == a1[a2.len() as int]);
        assert(is_digit(a1[a2.len() as int]));
    } else {
        assert forall|i: int| 0 <= i < a1.len() implies a1[i] == a2[i] by {
            assert(x[i] == a1[i]);
            assert(y[i] == a2[i]);
        }
        assert(a1 =~= a2);
        lemma_decimal_injective(k1, k2);
        assert(x.len() == a1.len() + 1 + b1.len());
        assert(y.len() == a2.len() + 1 + b2.len());
        assert forall|i: int| 0 <= i < b1.len() implies b1[i] == b2[i] by {
            assert(x[a1.len() + 1 + i] == b1[i]);
            assert(y[a2.len() + 1 + i] == b2[i]);
        }
        assert(b1 =~= b2);
        lemma_decimal_injective(j1, j2);
    }
}

/// Two callbacks get different ids unless they stand at the same place: the
/// same event, the same matcher of the event, the same place in the matcher.
pub proof fn lemma_callback_ids_differ(
    e1: HookEvent,
    k1: nat,
    j1: nat,
    e2: HookEvent,
    k2: nat,
    j2: nat,
)
    requires
        callback_id_text(e1, k1, j1) == callback_id_text(e2, k2, j2),
    ensures
        e1 == e2,
        k1 == k2,
        j1 == j2,
{
    reveal_strlit("\"");
    reveal_strlit("\"_");
    lemma_event_names(e1);
    lemma_event_names(e2);
    let n1 = e1.wire_name();
    let n2 = e2.wire_name();
    let t1 = callback_id_tail(k1, j1);
    let t2 = callback_id_tail(k2, j2);
    let x = callback_id_text(e1, k1, j1);
    let y = callback_id_text(e2, k2, j2);
    assert(x =~= "\""@ + n1 + "\"_"@ + t1);
    assert(y =~= "\""@ + n2 + "\"_"@ + t2);
    assert forall|i: int| 0 <= i < n1.len() implies x[1 + i] == n1[i] by {}
    assert forall|i: int| 0 <= i < n2.len() implies y[1 + i] == n2[i] by {}
    assert(x[1 + n1.len() as int] == '"');
    assert(y[1 + n2.len() as int] == '"');
    if n1.len() < n2.len() {
        assert(y[1 + n1.len() as int] == n2[n1.len() as int]);
    } else if n2.len() < n1.len() {
        assert(x[1 + n2.len() as int] == n1[n2.len() as int]);
    } else {
        assert(x[4int] == n1[3]);
        assert(y[4int] == n2[3]);
        assert(e1 == e2);
        assert forall|i: int| 0 <= i < t1.len() implies t1[i] == t2[i] by {
            assert(x[3 + n1.len() + i] == t1[i]);
            assert(y[3 + n2.len() + i] == t2[i]);
        }
        assert(x.len() == 3 + n1.len() + t1.len());
        assert(y.len() == 3 + n2.len() + t2.len());
        assert(t1 =~= t2);
        lemma_callback_id_tails_differ(k1, j1, k2, j2);
    }
}

/// A callback of the matcher is found under its id.
proof fn lemma_matcher_hit(
    callbacks: Map<Seq<char>, HookCallback>,
    event: HookEvent,
    matcher_idx: nat,
    hooks: Seq<HookCallback>,
    j: int,
)
    requires
        0 <= j < hooks.len(),
    ensures
        with_matcher_callbacks(callbacks, event, matcher_idx, hooks).contains_key(
            callback_id_text(event, matcher_idx, j as nat),
        ),
        with_matcher_callbacks(callbacks, event, matcher_idx, hooks)[callback_id_text(
            event,
            matcher_idx,
            j as nat,
        )] == hooks[j],
    decreases hooks.len(),
{
    let last = hooks.len() - 1;
    if j < last {
        lemma_matcher_hit(callbacks, event, matcher_idx, hooks.drop_last(), j);
        if callback_id_text(event, matcher_idx, j as nat) == callback_id_text(
            event,
            matcher_idx,
            last as nat,
        ) {
            lemma_callback_ids_differ(event, matcher_idx, j as nat, event, matcher_idx, last as nat);
        }
    }
}

/// Whatever is no id of the matcher is found as before.
proof fn lemma_matcher_miss(
    callbacks: Map<Seq<char>, HookCallback>,
    event: HookEvent,
    matcher_idx: nat,
    hooks: Seq<HookCallback>,
    key: Seq<char>,
)
    requires
        forall|j: int|
            0 <= j < hooks.len() ==> key != #[trigger] callback_id_text(
                event,
                matcher_idx,
                j as nat,
            ),
    ensures
        with_matcher_callbacks(callbacks, event, matcher_idx, hooks).contains_key(key)
            == callbacks.contains_key(key),
        callbacks.contains_key(key) ==> with_matcher_callbacks(
            callbacks,
            event,
            matcher_idx,
            hooks,
        )[key] == callbacks[key],
    decreases hooks.len(),
{
    if hooks.len() > 0 {
        let rest = hooks.drop_last();
        assert forall|j: int| 0 <= j < rest.len() implies key != #[trigger] callback_id_text(
            event,
            matcher_idx,
            j as nat,
        ) by {}
        lemma_matcher_miss(callbacks, event, matcher_idx, rest, key);
        assert(key != callback_id_text(event, matcher_idx, (hooks.len() - 1) as nat));
    }
}

/// A callback of a matcher of the event is found under its id.
proof fn lemma_event_hit(
    callbacks: Map<Seq<char>, HookCallback>,
    event: HookEvent,
    matchers: Seq<HookMatcherView>,
    k: int,
    j: int,
)
    requires
        0 <= k < matchers.len(),
        0 <= j < matchers[k].hooks.len(),
    ensures
        with_event_callbacks(callbacks, event, matchers).contains_key(
            callback_id_text(event, k as nat, j as nat),
        ),
        with_event_callbacks(callbacks, event, matchers)[callback_id_text(
            event,
            k as nat,
            j as nat,
        )] == matchers[k].hooks[j],
    decreases matchers.len(),
{
    let last = matchers.len() - 1;
    let inner = with_event_callbacks(callbacks, event, matchers.drop_last());
    if k == last {
        lemma_matcher_hit(inner, event, last as nat, matchers.last().hooks, j);
    } else {
        lemma_event_hit(callbacks, event, matchers.drop_last(), k, j);
        let key = callback_id_text(event, k as nat, j as nat);
        assert forall|i: int| 0 <= i < matchers.last().hooks.len() implies key
            != #[trigger] callback_id_text(event, last as nat, i as nat) by {
            if key == callback_id_text(event, last as nat, i as nat) {
                lemma_callback_ids_differ(event, k as nat, j as nat, event, last as nat, i as nat);
            }
        }
        lemma_matcher_miss(inner, event, last as nat, matchers.last().hooks, key);
    }
}

/// Whatever is no id of the event is found as before.
proof fn lemma_event_miss(
    callbacks: Map<Seq<char>, HookCallback>,
    event: HookEvent,
    matchers: Seq<HookMatcherView>,
    key: Seq<char>,
)
    requires
        forall|k: nat, j: nat| key != #[trigger] callback_id_text(event, k, j),
    ensures
        with_event_callbacks(callbacks, event, matchers).contains_key(key)
            == callbacks.contains_key(key),
        callbacks.contains_key(key) ==> with_event_callbacks(callbacks, event, matchers)[key]
            == callbacks[key],
    decreases matchers.len(),
{
    if matchers.len() > 0 {
        let last = (matchers.len() - 1) as nat;
        let inner = with_event_callbacks(callbacks, event, matchers.drop_last());
        lemma_event_miss(callbacks, event, matchers.drop_last(), key);
        assert forall|i: int| 0 <= i < matchers.last().hooks.len() implies key
            != #[trigger] callback_id_text(event, last, i as nat) by {}
        lemma_matcher_miss(inner, event, last, matchers.last().hooks, key);
    }
}

/// Whether the entry at place `i` is the one that counts for its event:
/// no later entry of the hooks is of the same event. Where no event stands
/// twice, every entry counts.
pub open spec fn counts_for_its_event(
    hooks: Seq<(HookEvent, Seq<HookMatcherView>)>,
    i: int,
) -> bool {
    &&& 0 <= i < hooks.len()
    &&& forall|b: int| i < b < hooks.len() ==> hooks[b].0 != hooks[i].0
}

/// Different events have different names.
pub proof fn lemma_event_names_differ(e1: HookEvent, e2: HookEvent)
    requires
        e1 != e2,
    ensures
        e1.wire_name() != e2.wire_name(),
{
    lemma_event_names(e1);
    lemma_event_names(e2);
}

/// Once the hooks are registered, every callback of an entry that counts
/// for its event is found under its id: the callback at place `j` of
/// matcher `k` under the id of the event, of `k` and of `j`. Where an event
/// stands twice in the hooks, the later entry counts: under an id that both
/// give, the callback of the later one is found.
pub proof fn lemma_registered_callback_is_found(
    callbacks: Map<Seq<char>, HookCallback>,
    hooks: Seq<(HookEvent, Seq<HookMatcherView>)>,
    i: int,
    k: int,
    j: int,
)
    requires
        counts_for_its_event(hooks, i),
        0 <= k < hooks[i].1.len(),
        0 <= j < hooks[i].1[k].hooks.len(),
    ensures
        with_hook_callbacks(callbacks, hooks).contains_key(
            callback_id_text(hooks[i].0, k as nat, j as nat),
        ),
        with_hook_callbacks(callbacks, hooks)[callback_id_text(hooks[i].0, k as nat, j as nat)]
            == hooks[i].1[k].hooks[j],
    decreases hooks.len(),
{
    let last = hooks.len() - 1;
    let inner = with_hook_callbacks(callbacks, hooks.drop_last());
    if i == last {
        lemma_event_hit(inner, hooks.last().0, hooks.last().1, k, j);
    } else {
        let rest = hooks.drop_last();
        assert(counts_for_its_event(rest, i)) by {
            assert(rest[i] == hooks[i]);
            assert forall|b: int| i < b < rest.len() implies rest[b].0 != rest[i].0 by {
                assert(rest[b] == hooks[b]);
            }
        }
        assert(rest[i] == hooks[i]);
        assert(hooks[last].0 != hooks[i].0);
        lemma_registered_callback_is_found(callbacks, rest, i, k, j);
        let key = callback_id_text(hooks[i].0, k as nat, j as nat);
        assert forall|m: nat, n: nat| key != #[trigger] callback_id_text(
            hooks.last().0,
            m,
            n,
        ) by {
            if key == callback_id_text(hooks.last().0, m, n) {
                lemma_callback_ids_differ(hooks[i].0, k as nat, j as nat, hooks.last().0, m, n);
            }
        }
        lemma_event_miss(inner, hooks.last().0, hooks.last().1, key);
    }
}

/// The handshake tells the peer, of each event, the matchers of the entry
/// that counts for it: where an event stands twice in the hooks, those of
/// the later entry.
pub proof fn lemma_counting_entry_is_told(hooks: Seq<(HookEvent, Seq<HookMatcherView>)>, i: int)
    requires
        counts_for_its_event(hooks, i),
    ensures
        hooks_config(hooks).get(hooks[i].0.wire_name()) == Some(
            event_config(hooks[i].0, hooks[i].1),
        ),
    decreases hooks.len(),
{
    let members = hooks_config(hooks)->Object_0;
    let last = hooks.len() - 1;
    assert(members.last() == (hooks[last].0.wire_name(), event_config(hooks[last].0, hooks[last].1)));
    if i != last {
        let rest = hooks.drop_last();
        assert(rest[i] == hooks[i]);
        assert(counts_for_its_event(rest, i)) by {
            assert forall|b: int| i < b < rest.len() implies rest[b].0 != rest[i].0 by {
                assert(rest[b] == hooks[b]);
            }
        }
        lemma_counting_entry_is_told(rest, i);
        assert(hooks_config(rest)->Object_0 =~= members.drop_last());
        lemma_event_names_differ(hooks[last].0, hooks[i].0);
    }
}

} // verus!
