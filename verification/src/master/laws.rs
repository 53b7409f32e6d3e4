//! What holds of every step and of every run of the master engine.

use crate::json::{is_scratch_key, members_of, merge_value, with_member_value, JsonValue};
use crate::master::engine::{
    classify, command_topic, function_notice_doc, not_found_notice, notice, payload_function,
    payload_functions, reduce_value, run_functions, step_of, ActionKind, MasterEngine,
    PipelineValue,
};
use crate::master::{
    function_doc, function_of, functions_doc, functions_of, functions_of_items, ActionValue,
    EngineAction, EngineResult, EngineState, FunctionValue, SliceFunction, StateValue,
};
use crate::runtime::{is_run, state_before, Engine};
use vstd::prelude::*;

verus! {

/// Whether no member of a document is scratch data.
pub open spec fn no_scratch(info: JsonValue) -> bool {
    forall|k: Seq<char>| members_of(info).contains_key(k) ==> !is_scratch_key(k)
}

/// Whether an action is one of the commands that change the list of calls.
pub open spec fn changes_functions(kind: ActionKind) -> bool {
    kind is FunctionsPush || kind is FunctionsPop || kind is FunctionsClear
        || kind is FunctionsPutAll
}

/// After an action that runs the list, the working document holds no
/// scratch data; after any action it holds none if it held none before.
pub proof fn law_scratch_is_dropped(
    prefix: Seq<char>,
    registry: Map<Seq<char>, SliceFunction>,
    state: StateValue,
    action: ActionValue,
    timestamp: int,
)
    ensures
        state.status !is Final && classify(prefix, action.topic) is Pipeline ==> no_scratch(
            reduce_value(prefix, registry, state, action, timestamp).state.info,
        ),
        no_scratch(state.info) ==> no_scratch(
            reduce_value(prefix, registry, state, action, timestamp).state.info,
        ),
{
}

/// The list of calls changes only on the commands that push, pop, clear or
/// replace it.
pub proof fn law_functions_change_on_command(
    prefix: Seq<char>,
    registry: Map<Seq<char>, SliceFunction>,
    state: StateValue,
    action: ActionValue,
    timestamp: int,
)
    ensures
        !changes_functions(classify(prefix, action.topic)) ==> reduce_value(
            prefix,
            registry,
            state,
            action,
            timestamp,
        ).state.functions == state.functions,
        state.status is Final ==> reduce_value(
            prefix,
            registry,
            state,
            action,
            timestamp,
        ).state.functions == state.functions,
{
}

/// A run never leaves its final state, and never goes back to its start.
pub proof fn law_status_moves_forward(
    prefix: Seq<char>,
    registry: Map<Seq<char>, SliceFunction>,
    state: StateValue,
    action: ActionValue,
    timestamp: int,
)
    ensures
        reduce_value(prefix, registry, state, action, timestamp).state.status !is Init,
        state.status is Final ==> reduce_value(prefix, registry, state, action, timestamp).state
            == state,
        state.status is Final ==> reduce_value(prefix, registry, state, action, timestamp).messages
            == Seq::<crate::master::MessageValue>::empty(),
{
}

/// Two commands with different names have different topics.
pub proof fn lemma_command_topics_differ(prefix: Seq<char>, a: Seq<char>, b: Seq<char>)
    requires
        a != b,
    ensures
        command_topic(prefix, a) != command_topic(prefix, b),
{
    let head = prefix + "/command/"@;
    assert((head + a).subrange(head.len() as int, (head + a).len() as int) =~= a);
    assert((head + b).subrange(head.len() as int, (head + b).len() as int) =~= b);
}

/// What the topics of the commands on the list ask for.
pub proof fn lemma_classify_commands(prefix: Seq<char>)
    ensures
        classify(prefix, command_topic(prefix, "functions_push"@)) is FunctionsPush,
        classify(prefix, command_topic(prefix, "functions_pop"@)) is FunctionsPop,
        classify(prefix, command_topic(prefix, "functions_clear"@)) is FunctionsClear,
        classify(prefix, command_topic(prefix, "functions_putall"@)) is FunctionsPutAll,
        classify(prefix, command_topic(prefix, "functions_getall"@)) is FunctionsGetAll,
{
    reveal_strlit("functions_push");
    reveal_strlit("functions_pop");
    reveal_strlit("functions_clear");
    reveal_strlit("functions_putall");
    reveal_strlit("functions_getall");
    assert("functions_putall"@[10] != "functions_getall"@[10]);
    lemma_command_topics_differ(prefix, "functions_pop"@, "functions_push"@);
    lemma_command_topics_differ(prefix, "functions_clear"@, "functions_push"@);
    lemma_command_topics_differ(prefix, "functions_clear"@, "functions_pop"@);
    lemma_command_topics_differ(prefix, "functions_putall"@, "functions_push"@);
    lemma_command_topics_differ(prefix, "functions_putall"@, "functions_pop"@);
    lemma_command_topics_differ(prefix, "functions_putall"@, "functions_clear"@);
    lemma_command_topics_differ(prefix, "functions_getall"@, "functions_push"@);
    lemma_command_topics_differ(prefix, "functions_getall"@, "functions_pop"@);
    lemma_command_topics_differ(prefix, "functions_getall"@, "functions_clear"@);
    lemma_command_topics_differ(prefix, "functions_getall"@, "functions_putall"@);
}

/// A push of a call followed by a pop gives the list as it was, and the
/// notice of the pop names the call that was pushed.
pub proof fn law_push_then_pop(
    prefix: Seq<char>,
    registry: Map<Seq<char>, SliceFunction>,
    state: StateValue,
    push: ActionValue,
    pop: ActionValue,
    t1: int,
    t2: int,
)
    requires
        state.status !is Final,
        push.topic == command_topic(prefix, "functions_push"@),
        pop.topic == command_topic(prefix, "functions_pop"@),
        payload_function(push.payload) is Ok,
    ensures
        ({
            let pushed = reduce_value(prefix, registry, state, push, t1).state;
            let after = reduce_value(prefix, registry, pushed, pop, t2);
            &&& after.state.functions == state.functions
            &&& after.state.info == state.info
            &&& after.messages == seq![
                notice(
                    prefix,
                    "functions_pop"@,
                    function_notice_doc(payload_function(push.payload)->Ok_0.name),
                ),
            ]
        }),
{
    lemma_classify_commands(prefix);
}

/// After the list was replaced by the one that a payload holds, a report
/// of the list carries the text of that same list.
pub proof fn law_putall_then_getall(
    prefix: Seq<char>,
    registry: Map<Seq<char>, SliceFunction>,
    state: StateValue,
    putall: ActionValue,
    getall: ActionValue,
    t1: int,
    t2: int,
)
    requires
        state.status !is Final,
        putall.topic == command_topic(prefix, "functions_putall"@),
        getall.topic == command_topic(prefix, "functions_getall"@),
        payload_functions(putall.payload) is Ok,
    ensures
        ({
            let replaced = reduce_value(prefix, registry, state, putall, t1).state;
            let after = reduce_value(prefix, registry, replaced, getall, t2);
            &&& after.state.functions == payload_functions(putall.payload)->Ok_0
            &&& after.messages == seq![
                notice(
                    prefix,
                    "functions_getall"@,
                    functions_doc(payload_functions(putall.payload)->Ok_0),
                ),
            ]
        }),
{
    lemma_classify_commands(prefix);
}

/// A pop on an empty list reports success for no function, and leaves the
/// engine running with its list empty.
pub proof fn law_pop_on_empty(
    prefix: Seq<char>,
    registry: Map<Seq<char>, SliceFunction>,
    state: StateValue,
    pop: ActionValue,
    timestamp: int,
)
    requires
        state.status !is Final,
        state.functions.len() == 0,
        pop.topic == command_topic(prefix, "functions_pop"@),
    ensures
        ({
            let after = reduce_value(prefix, registry, state, pop, timestamp);
            &&& after.state.functions == state.functions
            &&& after.state.status is Running
            &&& after.messages == seq![
                notice(prefix, "functions_pop"@, function_notice_doc("<None>"@)),
            ]
        }),
{
    lemma_classify_commands(prefix);
}

/// A call of a function that the registry lacks adds exactly one notice,
/// which names the function, to what the calls before it gave; its
/// parameters are merged all the same, and the calls after it still run on
/// what it leaves.
pub proof fn law_unknown_function(
    prefix: Seq<char>,
    registry: Map<Seq<char>, SliceFunction>,
    functions: Seq<FunctionValue>,
    at: int,
    start: PipelineValue,
    action: ActionValue,
)
    requires
        0 <= at < functions.len(),
        !registry.contains_key(functions[at].name),
    ensures
        ({
            let before = run_functions(prefix, registry, functions, at as nat, start, action);
            let after = run_functions(prefix, registry, functions, (at + 1) as nat, start, action);
            &&& after.messages == before.messages.push(
                not_found_notice(prefix, functions[at].name),
            )
            &&& after.info == merge_value(
                with_member_value(before.info, "_index"@, JsonValue::Int(at)),
                JsonValue::Object(functions[at].parameters),
            )
        }),
{
}

/// In a run that starts with a working document without scratch data, the
/// working document holds none after any action.
pub proof fn law_run_holds_no_scratch(
    engine: MasterEngine,
    init: EngineState,
    actions: Seq<EngineAction>,
    states: Seq<EngineState>,
    results: Seq<EngineResult>,
    at: int,
)
    requires
        is_run(engine, init, actions, states, results),
        no_scratch(init@.info),
        0 <= at < states.len(),
    ensures
        no_scratch(states[at]@.info),
    decreases at,
{
    if at > 0 {
        law_run_holds_no_scratch(engine, init, actions, states, results, at - 1);
    }
    let before = state_before(init, states, at);
    let timestamp = choose|timestamp: i64|
        step_of((states[at], results[at])) == #[trigger] reduce_value(
            engine.prefix(),
            engine.functions(),
            before@,
            actions[at]@,
            timestamp as int,
        );
    law_scratch_is_dropped(
        engine.prefix(),
        engine.functions(),
        before@,
        actions[at]@,
        timestamp as int,
    );
}

/// Whether no call of a list has a parameter called `name`.
pub open spec fn no_name_parameter(functions: Seq<FunctionValue>) -> bool {
    forall|i: int|
        0 <= i < functions.len() ==> !(#[trigger] functions[i]).parameters.contains_key("name"@)
}

/// The document that stands for a call is read back as that call, where
/// the call has no parameter called `name`.
pub proof fn law_function_doc_reads_back(f: FunctionValue)
    requires
        !f.parameters.contains_key("name"@),
    ensures
        function_of(function_doc(f)) == Ok::<FunctionValue, Seq<char>>(f),
{
    let read = function_of(function_doc(f))->Ok_0;
    assert(read.parameters =~= f.parameters);
}

/// The document that stands for a list of calls is read back as that list,
/// where no call has a parameter called `name`.
pub proof fn law_functions_doc_reads_back(functions: Seq<FunctionValue>)
    requires
        no_name_parameter(functions),
    ensures
        functions_of(functions_doc(functions)) == Ok::<Seq<FunctionValue>, Seq<char>>(functions),
    decreases functions.len(),
{
    let items = functions.map_values(|f: FunctionValue| function_doc(f));
    if functions.len() == 0 {
        assert(functions_of_items(items) == Ok::<Seq<FunctionValue>, Seq<char>>(Seq::empty()));
        assert(functions =~= Seq::empty());
    } else {
        let front = functions.drop_last();
        law_functions_doc_reads_back(front);
        law_function_doc_reads_back(functions.last());
        assert(items.drop_last() =~= front.map_values(|f: FunctionValue| function_doc(f)));
        assert(front.push(functions.last()) =~= functions);
    }
}

} // verus!
