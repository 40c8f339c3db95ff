//! The mathematical model of the two artifacts.
//!
//! Each template is a fixed sequence of literal parts with slots in between:
//! identifier slots, which all receive the same identifier, and fragment
//! slots, each gated by exactly one feature flag. `spec_system_text` and
//! `spec_component_text` give the rendered text as the concatenation of
//! those parts, and the lemmas below state the structural laws of the
//! rendering: determinism, consistent identifier substitution, flag
//! independence, and the absence of leading or trailing whitespace.

use vstd::prelude::*;

verus! {

// ---------------------------------------------------------------------------
// Fixed parts of the System template
// ---------------------------------------------------------------------------

/// Everything before the identifier in the System's class declaration.
pub open spec fn sys_header() -> Seq<char> {
    "using UnityEngine;\nusing System.Collections.Generic;\n\n// #jam\npublic class "@
}

/// From the identifier of the class name to the element type of the list.
pub open spec fn sys_decl() -> Seq<char> {
    "System : MonoBehaviour\n{\n    public static List<"@
}

/// Between the two identifier slots of the list declaration.
pub open spec fn sys_list() -> Seq<char> {
    "> components = new List<"@
}

/// From the end of the list declaration into the iteration hook, up to the
/// queue-check slot.
pub open spec fn sys_update() -> Seq<char> {
    ">();\n\n    private void Update()\n    {\n        foreach (var c in components)\n        {\n            "@
}

/// Closing braces of the iteration hook and the class.
pub open spec fn sys_close() -> Seq<char> {
    "\n        }\n    }\n}"@
}

/// The dequeue-check block inside the System's iteration hook; present
/// exactly when the queue flag is set.
pub open spec fn queue_check_fragment(use_queue: bool) -> Seq<char> {
    if use_queue {
        "if (c.queue.Count > 0)\n            {\n                var value = c.queue.Dequeue();\n            }"@
    } else {
        Seq::<char>::empty()
    }
}

/// The System artifact rendered for `name`: the fixed parts with `name` in
/// each identifier slot and the queue-check fragment in its slot.
pub open spec fn spec_system_text(name: Seq<char>, use_queue: bool) -> Seq<char> {
    sys_header() + name + sys_decl() + name + sys_list() + name + sys_update()
        + queue_check_fragment(use_queue) + sys_close()
}

// ---------------------------------------------------------------------------
// Fixed parts of the Component template
// ---------------------------------------------------------------------------

/// The first using directive, before the queue-using slot.
pub open spec fn comp_header() -> Seq<char> {
    "using UnityEngine;"@
}

/// The extra using directive needed by the queue field; present exactly when
/// the queue flag is set.
pub open spec fn queue_using_fragment(use_queue: bool) -> Seq<char> {
    if use_queue {
        "\nusing System.Collections.Generic;"@
    } else {
        Seq::<char>::empty()
    }
}

/// From the using directives to the identifier of the class name.
pub open spec fn comp_decl() -> Seq<char> {
    "\n\n// #jam\npublic class "@
}

/// From the identifier of the class name to the queue-field slot.
pub open spec fn comp_open() -> Seq<char> {
    " : MonoBehaviour\n{"@
}

/// The queue field of the Component; present exactly when the queue flag is
/// set.
pub open spec fn queue_field_fragment(use_queue: bool) -> Seq<char> {
    if use_queue {
        "\n    public Queue<bool> queue = new Queue<bool>();\n"@
    } else {
        Seq::<char>::empty()
    }
}

/// The dependency example with its Start hook; present exactly when the
/// start flag is set.
pub open spec fn start_fragment(use_start: bool) -> Seq<char> {
    if use_start {
        "\n    public Transform dependency;\n\n    private void Start()\n    {\n        dependency = GetComponent<Transform>();\n    }\n"@
    } else {
        Seq::<char>::empty()
    }
}

/// The enable hook, up to the identifier of the owning System.
pub open spec fn comp_enable() -> Seq<char> {
    "\n    private void OnEnable()\n    {\n        "@
}

/// Registration into the System's collection, then the disable hook up to
/// the identifier of the owning System.
pub open spec fn comp_add() -> Seq<char> {
    "System.components.Add(this);\n    }\n\n    private void OnDisable()\n    {\n        "@
}

/// Deregistration from the System's collection and the closing brace.
pub open spec fn comp_remove() -> Seq<char> {
    "System.components.Remove(this);\n    }\n}"@
}

/// The Component artifact rendered for `name`: the fixed parts with `name`
/// in each identifier slot and each optional fragment in its slot.
pub open spec fn spec_component_text(name: Seq<char>, use_start: bool, use_queue: bool) -> Seq<char> {
    comp_header() + queue_using_fragment(use_queue) + comp_decl() + name + comp_open()
        + queue_field_fragment(use_queue) + start_fragment(use_start)
        + comp_enable() + name + comp_add() + name + comp_remove()
}

// ---------------------------------------------------------------------------
// Derived file names
// ---------------------------------------------------------------------------

/// The target file name of the System artifact.
pub open spec fn spec_system_filename(name: Seq<char>) -> Seq<char> {
    name + "System.cs"@
}

/// The target file name of the Component artifact.
pub open spec fn spec_component_filename(name: Seq<char>) -> Seq<char> {
    name + ".cs"@
}

// ---------------------------------------------------------------------------
// Groupings of the templates around their slots
// ---------------------------------------------------------------------------

/// The System text up to (and not including) the queue-check slot. It does
/// not depend on any flag.
pub open spec fn sys_before_queue(name: Seq<char>) -> Seq<char> {
    sys_header() + name + sys_decl() + name + sys_list() + name + sys_update()
}

/// The Component text up to (and not including) the start slot. It does not
/// depend on the start flag.
pub open spec fn comp_before_start(name: Seq<char>, use_queue: bool) -> Seq<char> {
    comp_header() + queue_using_fragment(use_queue) + comp_decl() + name + comp_open()
        + queue_field_fragment(use_queue)
}

/// The Component text after the start slot. It does not depend on any flag.
pub open spec fn comp_after_start(name: Seq<char>) -> Seq<char> {
    comp_enable() + name + comp_add() + name + comp_remove()
}

/// The Component's class declaration, between the queue-using slot and the
/// queue-field slot. It does not depend on any flag.
pub open spec fn comp_class_decl(name: Seq<char>) -> Seq<char> {
    comp_decl() + name + comp_open()
}

// ---------------------------------------------------------------------------
// Laws of the rendering
// ---------------------------------------------------------------------------

/// Rendering is deterministic: each artifact's text is a function of the
/// identifier and the flags alone, so any two renderings that meet the
/// generators' contracts on the same inputs are byte-identical.
pub proof fn lemma_render_deterministic(
    name: Seq<char>,
    use_start: bool,
    use_queue: bool,
    sys1: Seq<char>,
    sys2: Seq<char>,
    comp1: Seq<char>,
    comp2: Seq<char>,
)
    requires
        sys1 == spec_system_text(name, use_queue),
        sys2 == spec_system_text(name, use_queue),
        comp1 == spec_component_text(name, use_start, use_queue),
        comp2 == spec_component_text(name, use_start, use_queue),
    ensures
        sys1 == sys2,
        comp1 == comp2,
{
}

/// The identifier is substituted consistently in the System artifact: at
/// each of its three identifier slots the output holds exactly `name`, the
/// same string each time, whatever the flags.
pub proof fn lemma_identifier_slots_system(name: Seq<char>, use_queue: bool)
    ensures
        spec_system_text(name, use_queue).subrange(
            sys_header().len() as int,
            (sys_header().len() + name.len()) as int,
        ) == name,
        spec_system_text(name, use_queue).subrange(
            (sys_header().len() + name.len() + sys_decl().len()) as int,
            (sys_header().len() + name.len() + sys_decl().len() + name.len()) as int,
        ) == name,
        spec_system_text(name, use_queue).subrange(
            (sys_header().len() + name.len() + sys_decl().len() + name.len()
                + sys_list().len()) as int,
            (sys_header().len() + name.len() + sys_decl().len() + name.len() + sys_list().len()
                + name.len()) as int,
        ) == name,
{
    let t = spec_system_text(name, use_queue);
    let h = sys_header().len() as int;
    let n = name.len() as int;
    let d = sys_decl().len() as int;
    let l = sys_list().len() as int;
    assert(t.subrange(h, h + n) =~= name);
    assert(t.subrange(h + n + d, h + n + d + n) =~= name);
    assert(t.subrange(h + n + d + n + l, h + n + d + n + l + n) =~= name);
}

/// The identifier is substituted consistently in the Component artifact: at
/// each of its three identifier slots the output holds exactly `name`, the
/// same string each time, whatever the flags.
pub proof fn lemma_identifier_slots_component(name: Seq<char>, use_start: bool, use_queue: bool)
    ensures
        spec_component_text(name, use_start, use_queue).subrange(
            (comp_header().len() + queue_using_fragment(use_queue).len()
                + comp_decl().len()) as int,
            (comp_header().len() + queue_using_fragment(use_queue).len() + comp_decl().len()
                + name.len()) as int,
        ) == name,
        spec_component_text(name, use_start, use_queue).subrange(
            (comp_before_start(name, use_queue).len() + start_fragment(use_start).len()
                + comp_enable().len()) as int,
            (comp_before_start(name, use_queue).len() + start_fragment(use_start).len()
                + comp_enable().len() + name.len()) as int,
        ) == name,
        spec_component_text(name, use_start, use_queue).subrange(
            (comp_before_start(name, use_queue).len() + start_fragment(use_start).len()
                + comp_enable().len() + name.len() + comp_add().len()) as int,
            (comp_before_start(name, use_queue).len() + start_fragment(use_start).len()
                + comp_enable().len() + name.len() + comp_add().len() + name.len()) as int,
        ) == name,
{
    let t = spec_component_text(name, use_start, use_queue);
    let a = comp_header().len() + queue_using_fragment(use_queue).len() + comp_decl().len();
    let b = comp_before_start(name, use_queue).len() + start_fragment(use_start).len()
        + comp_enable().len();
    let c = b + name.len() + comp_add().len();
    assert(t.subrange(a as int, (a + name.len()) as int) =~= name);
    assert(t.subrange(b as int, (b + name.len()) as int) =~= name);
    assert(t.subrange(c as int, (c + name.len()) as int) =~= name);
}

/// Flag independence for the System: the queue flag decides the queue-check
/// slot and nothing else. The text around that slot is the same for either
/// flag value, and the System does not depend on the start flag at all.
pub proof fn lemma_queue_flag_isolated_system(name: Seq<char>, use_queue: bool)
    ensures
        spec_system_text(name, use_queue) == sys_before_queue(name) + queue_check_fragment(
            use_queue,
        ) + sys_close(),
{
}

/// Flag independence for the Component, start flag: it decides the start
/// slot and nothing else. The text before and after that slot does not
/// mention the start flag.
pub proof fn lemma_start_flag_isolated(name: Seq<char>, use_start: bool, use_queue: bool)
    ensures
        spec_component_text(name, use_start, use_queue) == comp_before_start(name, use_queue)
            + start_fragment(use_start) + comp_after_start(name),
{
    assert(spec_component_text(name, use_start, use_queue) =~= comp_before_start(name, use_queue)
        + start_fragment(use_start) + comp_after_start(name));
}

/// Flag independence for the Component, queue flag: it decides the
/// queue-using slot and the queue-field slot and nothing else. No other
/// part of the decomposition mentions the queue flag.
pub proof fn lemma_queue_flag_isolated_component(name: Seq<char>, use_start: bool, use_queue: bool)
    ensures
        spec_component_text(name, use_start, use_queue) == comp_header() + queue_using_fragment(
            use_queue,
        ) + comp_class_decl(name) + queue_field_fragment(use_queue) + start_fragment(use_start)
            + comp_after_start(name),
{
    assert(spec_component_text(name, use_start, use_queue) =~= comp_header()
        + queue_using_fragment(use_queue) + comp_class_decl(name) + queue_field_fragment(use_queue)
        + start_fragment(use_start) + comp_after_start(name));
}

/// The whitespace characters that trimming is about.
pub open spec fn is_space(c: char) -> bool {
    c == ' ' || c == '\t' || c == '\n' || c == '\r'
}

/// Both artifacts come out trimmed: the text is nonempty and carries no
/// leading or trailing whitespace, for every identifier and every flag
/// combination. (The first character of either artifact is the `u` of
/// `using`; the last is the class's closing brace.)
pub proof fn lemma_trimmed(name: Seq<char>, use_start: bool, use_queue: bool)
    ensures
        spec_system_text(name, use_queue).len() > 0,
        !is_space(spec_system_text(name, use_queue).first()),
        !is_space(spec_system_text(name, use_queue).last()),
        spec_component_text(name, use_start, use_queue).len() > 0,
        !is_space(spec_component_text(name, use_start, use_queue).first()),
        !is_space(spec_component_text(name, use_start, use_queue).last()),
{
    reveal_strlit("using UnityEngine;\nusing System.Collections.Generic;\n\n// #jam\npublic class ");
    reveal_strlit("\n        }\n    }\n}");
    reveal_strlit("using UnityEngine;");
    reveal_strlit("System.components.Remove(this);\n    }\n}");
    let s = spec_system_text(name, use_queue);
    assert(s.first() == 'u');
    assert(s.last() == '}');
    let c = spec_component_text(name, use_start, use_queue);
    assert(c.first() == 'u');
    assert(c.last() == '}');
}

} // verus!
