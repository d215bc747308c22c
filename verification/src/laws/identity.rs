//! What holds of the identifiers of commits.

use vstd::prelude::*;

use crate::hash;
use crate::ids;
use crate::ids::IdsView;
use crate::laws::hashing;
use crate::protocol::ParamsView;
use crate::text;

verus! {

/// All identifiers of a commit.
pub open spec fn all_ids(ids: IdsView) -> Seq<Seq<char>> {
    (match ids.original_request_turn_id {
        Some(turn_id) => seq![turn_id],
        None => seq![],
    }) + ids.committed_visible_context_turn_ids + seq![
        ids.final_plan_turn_id,
        ids.final_plan_item_id,
    ]
}

/// Two requests name the same commit.
pub open spec fn same_commit<Input>(a: ParamsView<Input>, b: ParamsView<Input>) -> bool {
    &&& a.thread_id == b.thread_id
    &&& a.job_id == b.job_id
    &&& a.idempotency_key == b.idempotency_key
}

/// What follows the prefix tells the identifiers of a commit apart: the
/// identifiers of the request, of the plan turn and of the plan item differ, and
/// each differs from that of every context turn.
proof fn lemma_suffixes_differ(prefix: Seq<char>, index: int)
    ensures
        prefix + "-request"@ != prefix + "-plan-turn"@,
        prefix + "-request"@ != prefix + "-plan-item"@,
        prefix + "-plan-turn"@ != prefix + "-plan-item"@,
        prefix + "-request"@ != ids::context_turn_id(prefix, index),
        prefix + "-plan-turn"@ != ids::context_turn_id(prefix, index),
        prefix + "-plan-item"@ != ids::context_turn_id(prefix, index),
{
    reveal_strlit("-request");
    reveal_strlit("-plan-turn");
    reveal_strlit("-plan-item");
    reveal_strlit("-context-");
    let at = prefix.len() as int;
    assert((prefix + "-request"@)[at + 1] == 'r');
    assert((prefix + "-plan-turn"@)[at + 1] == 'p');
    assert((prefix + "-plan-item"@)[at + 1] == 'p');
    assert((prefix + "-plan-turn"@)[at + 6] == 't');
    assert((prefix + "-plan-item"@)[at + 6] == 'i');
    assert(ids::context_turn_id(prefix, index)[at + 1] == 'c');
}

proof fn lemma_context_ids_differ(prefix: Seq<char>, i: int, j: int)
    requires
        0 <= i,
        0 <= j,
        ids::context_turn_id(prefix, i) == ids::context_turn_id(prefix, j),
    ensures
        i == j,
{
    let start = prefix + "-context-"@;
    let a = text::padded_digits(i as nat);
    let b = text::padded_digits(j as nat);
    assert((start + a).skip(start.len() as int) =~= a);
    assert((start + b).skip(start.len() as int) =~= b);
    text::lemma_padded_digits_differ(i as nat, j as nat);
}

/// No two turns or items of a commit share an identifier.
pub proof fn law_ids_are_distinct<Input>(params: ParamsView<Input>)
    ensures
        all_ids(ids::ids_of(params)).no_duplicates(),
{
    let prefix = ids::id_prefix(params);
    let view = ids::ids_of(params);
    let all = all_ids(view);
    let turns = view.committed_visible_context_turn_ids;
    let lead: int = if view.original_request_turn_id is Some {
        1
    } else {
        0
    };
    assert forall|i: int, j: int| 0 <= i < j < all.len() implies all[i] != all[j] by {
        let a = i - lead;
        let b = j - lead;
        lemma_suffixes_differ(prefix, a);
        lemma_suffixes_differ(prefix, b);
        if 0 <= a < turns.len() {
            assert(all[i] == ids::context_turn_id(prefix, a));
        }
        if 0 <= b < turns.len() {
            assert(all[j] == ids::context_turn_id(prefix, b));
        }
        if 0 <= a && b < turns.len() && all[i] == all[j] {
            lemma_context_ids_differ(prefix, a, b);
        }
    }
}

/// The identifiers of the plan depend on nothing but thread, job and idempotency
/// key. All identifiers agree where, besides, both requests or neither give the
/// original request, and both have as many context turns.
pub proof fn law_ids_are_reproducible<Input>(a: ParamsView<Input>, b: ParamsView<Input>)
    requires
        same_commit(a, b),
    ensures
        ids::ids_of(a).final_plan_turn_id == ids::ids_of(b).final_plan_turn_id,
        ids::ids_of(a).final_plan_item_id == ids::ids_of(b).final_plan_item_id,
        (a.original_user_input is Some <==> b.original_user_input is Some)
            && a.committed_visible_context_turns.len() == b.committed_visible_context_turns.len()
            ==> ids::ids_of(a) == ids::ids_of(b),
{
}

/// Two requests share the identifier of the plan item exactly when the hashes of
/// what names their commits agree.
pub proof fn law_plan_item_id_shows_the_hash<Input>(a: ParamsView<Input>, b: ParamsView<Input>)
    ensures
        ids::ids_of(a).final_plan_item_id == ids::ids_of(b).final_plan_item_id <==> hash::text_hash(
            ids::commit_key(a.thread_id, a.job_id, a.idempotency_key),
        ) == hash::text_hash(ids::commit_key(b.thread_id, b.job_id, b.idempotency_key)),
{
    let x = hash::text_hash(ids::commit_key(a.thread_id, a.job_id, a.idempotency_key));
    let y = hash::text_hash(ids::commit_key(b.thread_id, b.job_id, b.idempotency_key));
    if ids::ids_of(a).final_plan_item_id == ids::ids_of(b).final_plan_item_id {
        let start = "superplan-"@.len() as int;
        assert(ids::ids_of(a).final_plan_item_id.subrange(start, start + 16) =~= text::hex_digits(
            x,
        ));
        assert(ids::ids_of(b).final_plan_item_id.subrange(start, start + 16) =~= text::hex_digits(
            y,
        ));
        text::lemma_hex_digits_differ(x, y);
    }
}

/// The identifiers of a commit, letter by letter. They all begin with the hash of
/// thread, job and idempotency key. The request has one exactly when it is given,
/// whatever the number of context turns, and each context turn has one with its
/// number in it.
pub proof fn law_ids_are_spelled_out<Input>(params: ParamsView<Input>)
    ensures
        ({
            let view = ids::ids_of(params);
            let prefix = "superplan-"@ + text::hex_digits(
                hash::text_hash(
                    params.thread_id + seq!['\n'] + params.job_id + seq!['\n']
                        + params.idempotency_key,
                ),
            );
            &&& view.original_request_turn_id is Some <==> params.original_user_input is Some
            &&& params.original_user_input is Some ==> view.original_request_turn_id == Some(
                prefix + "-request"@,
            )
            &&& view.committed_visible_context_turn_ids.len()
                == params.committed_visible_context_turns.len()
            &&& forall|i: int|
                0 <= i < params.committed_visible_context_turns.len() ==> #[trigger]
                view.committed_visible_context_turn_ids[i] == prefix + "-context-"@
                    + text::padded_digits(i as nat)
            &&& view.final_plan_turn_id == prefix + "-plan-turn"@
            &&& view.final_plan_item_id == prefix + "-plan-item"@
        }),
{
    reveal_strlit("\n");
    assert("\n"@ =~= seq!['\n']);
}

/// Two texts differ in one ASCII character, between `before` and `after`.
pub open spec fn one_character_apart(
    a: Seq<char>,
    b: Seq<char>,
    before: Seq<char>,
    after: Seq<char>,
) -> bool {
    exists|c: char, d: char|
        c as int <= 0x7f && d as int <= 0x7f && c != d && a == #[trigger] before.push(c) + after
            && b == #[trigger] before.push(d) + after
}

proof fn lemma_hashes_differ(a: Seq<char>, b: Seq<char>, before: Seq<char>, after: Seq<char>)
    requires
        one_character_apart(a, b, before, after),
    ensures
        hash::text_hash(a) != hash::text_hash(b),
{
    let (c, d) = choose|c: char, d: char|
        c as int <= 0x7f && d as int <= 0x7f && c != d && a == #[trigger] before.push(c) + after
            && b == #[trigger] before.push(d) + after;
    hashing::law_one_character_changes_the_hash(before, c, d, after);
}

proof fn lemma_apart_within(
    a: Seq<char>,
    b: Seq<char>,
    before: Seq<char>,
    after: Seq<char>,
    lead: Seq<char>,
    rest: Seq<char>,
)
    requires
        one_character_apart(a, b, before, after),
    ensures
        one_character_apart(lead + a + rest, lead + b + rest, lead + before, after + rest),
{
    let (c, d) = choose|c: char, d: char|
        c as int <= 0x7f && d as int <= 0x7f && c != d && a == #[trigger] before.push(c) + after
            && b == #[trigger] before.push(d) + after;
    assert(lead + a + rest =~= (lead + before).push(c) + (after + rest));
    assert(lead + b + rest =~= (lead + before).push(d) + (after + rest));
}

/// Every identifier of a commit begins with the hash of what names the commit.
proof fn lemma_ids_begin_with_the_hash<Input>(params: ParamsView<Input>, i: int)
    requires
        0 <= i < all_ids(ids::ids_of(params)).len(),
    ensures
        all_ids(ids::ids_of(params))[i].subrange(
            "superplan-"@.len() as int,
            "superplan-"@.len() + 16int,
        ) == text::hex_digits(
            hash::text_hash(
                ids::commit_key(params.thread_id, params.job_id, params.idempotency_key),
            ),
        ),
{
    let view = ids::ids_of(params);
    let all = all_ids(view);
    let prefix = ids::id_prefix(params);
    let start = "superplan-"@.len() as int;
    let digits = text::hex_digits(
        hash::text_hash(ids::commit_key(params.thread_id, params.job_id, params.idempotency_key)),
    );
    let lead: int = if params.original_user_input is Some {
        1
    } else {
        0
    };
    let turns = view.committed_visible_context_turn_ids;
    if i < lead {
        assert(all[i] == prefix + "-request"@);
    } else if i < lead + turns.len() {
        assert(all[i] == ids::context_turn_id(prefix, i - lead));
    } else if i == lead + turns.len() {
        assert(all[i] == prefix + "-plan-turn"@);
    } else {
        assert(all[i] == prefix + "-plan-item"@);
    }
    assert(all[i].subrange(start, start + 16) =~= digits);
}

/// Two requests whose threads, jobs or idempotency keys differ in one ASCII
/// character, wherever it stands, and that agree in the other two, share no
/// identifier.
pub proof fn law_one_character_names_another_commit<Input>(
    a: ParamsView<Input>,
    b: ParamsView<Input>,
    before: Seq<char>,
    after: Seq<char>,
)
    requires
        ({
            ||| one_character_apart(a.thread_id, b.thread_id, before, after) && a.job_id == b.job_id
                && a.idempotency_key == b.idempotency_key
            ||| a.thread_id == b.thread_id && one_character_apart(
                a.job_id,
                b.job_id,
                before,
                after,
            ) && a.idempotency_key == b.idempotency_key
            ||| a.thread_id == b.thread_id && a.job_id == b.job_id && one_character_apart(
                a.idempotency_key,
                b.idempotency_key,
                before,
                after,
            )
        }),
    ensures
        ids::ids_of(a).final_plan_item_id != ids::ids_of(b).final_plan_item_id,
        forall|i: int, j: int|
            0 <= i < all_ids(ids::ids_of(a)).len() && 0 <= j < all_ids(ids::ids_of(b)).len()
                ==> #[trigger] all_ids(ids::ids_of(a))[i] != #[trigger] all_ids(ids::ids_of(b))[j],
{
    let x = ids::commit_key(a.thread_id, a.job_id, a.idempotency_key);
    let y = ids::commit_key(b.thread_id, b.job_id, b.idempotency_key);
    if one_character_apart(a.thread_id, b.thread_id, before, after) && a.job_id == b.job_id
        && a.idempotency_key == b.idempotency_key {
        let lead = Seq::<char>::empty();
        let rest = "\n"@ + a.job_id + "\n"@ + a.idempotency_key;
        lemma_apart_within(a.thread_id, b.thread_id, before, after, lead, rest);
        assert(x =~= lead + a.thread_id + rest);
        assert(y =~= lead + b.thread_id + rest);
        lemma_hashes_differ(x, y, lead + before, after + rest);
    } else if one_character_apart(a.job_id, b.job_id, before, after) && a.thread_id == b.thread_id
        && a.idempotency_key == b.idempotency_key {
        let lead = a.thread_id + "\n"@;
        let rest = "\n"@ + a.idempotency_key;
        lemma_apart_within(a.job_id, b.job_id, before, after, lead, rest);
        assert(x =~= lead + a.job_id + rest);
        assert(y =~= lead + b.job_id + rest);
        lemma_hashes_differ(x, y, lead + before, after + rest);
    } else {
        let lead = a.thread_id + "\n"@ + a.job_id + "\n"@;
        let rest = Seq::<char>::empty();
        lemma_apart_within(a.idempotency_key, b.idempotency_key, before, after, lead, rest);
        assert(x =~= lead + a.idempotency_key + rest);
        assert(y =~= lead + b.idempotency_key + rest);
        lemma_hashes_differ(x, y, lead + before, after + rest);
    }
    let first = all_ids(ids::ids_of(a));
    let second = all_ids(ids::ids_of(b));
    assert forall|i: int, j: int| 0 <= i < first.len() && 0 <= j < second.len() implies #[trigger]
    first[i] != #[trigger] second[j] by {
        lemma_ids_begin_with_the_hash(a, i);
        lemma_ids_begin_with_the_hash(b, j);
        text::lemma_hex_digits_differ(hash::text_hash(x), hash::text_hash(y));
    }
    assert(first.last() == ids::ids_of(a).final_plan_item_id);
    assert(second.last() == ids::ids_of(b).final_plan_item_id);
    assert(first[first.len() - 1] != second[second.len() - 1]);
}

/// Two requests that agree in thread and job, and whose idempotency keys differ in
/// the last character only, have different plan item identifiers.
pub proof fn law_last_character_of_the_key_counts<Input>(
    params: ParamsView<Input>,
    key: Seq<char>,
    c: char,
    d: char,
)
    requires
        c as int <= 0x7f,
        d as int <= 0x7f,
        c != d,
    ensures
        ids::ids_of(
            ParamsView { idempotency_key: key.push(c), ..params },
        ).final_plan_item_id != ids::ids_of(
            ParamsView { idempotency_key: key.push(d), ..params },
        ).final_plan_item_id,
{
    let after = Seq::<char>::empty();
    let a = ParamsView { idempotency_key: key.push(c), ..params };
    let b = ParamsView { idempotency_key: key.push(d), ..params };
    assert(key.push(c) + after =~= key.push(c));
    assert(key.push(d) + after =~= key.push(d));
    assert(one_character_apart(a.idempotency_key, b.idempotency_key, key, after));
    law_one_character_names_another_commit(a, b, key, after);
}

} // verus!
