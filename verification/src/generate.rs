//! The executable renderer.
//!
//! `generate_system_string` and `get_component` build the two artifacts'
//! text; `render` bundles them with their derived file names, honouring the
//! suppression flags. Each function's contract equates what it returns with
//! the model in `crate::template`.

use vstd::prelude::*;
use vstd::string::StringExecFns;

use crate::template::spec_component_filename;
use crate::template::spec_component_text;
use crate::template::spec_system_filename;
use crate::template::spec_system_text;

verus! {

/// The feature flags of a single rendering: which optional fragments to
/// add and which artifacts to suppress. Each flag gates exactly one
/// thing and nothing else.
#[derive(Clone, Copy, Debug, PartialEq, Eq, Structural)]
pub struct FeatureFlags {
    /// Adds the dependency example with its Start hook to the Component.
    pub use_start: bool,
    /// Adds a queue field to the Component and a dequeue check to the
    /// System's iteration hook.
    pub use_queue: bool,
    /// Omits the Component artifact from the rendering.
    pub suppress_component: bool,
    /// Omits the System artifact from the rendering.
    pub suppress_system: bool,
}

/// One rendered artifact: its text and the file name it is meant to be
/// written to.
#[derive(Debug)]
pub struct GeneratedArtifact {
    pub filename: String,
    pub text: String,
}

/// The result of one rendering. When both artifacts are produced the System
/// comes first, the Component second; that order is this library's product
/// decision and the caller may rely on it.
#[derive(Debug)]
pub struct RenderOutput {
    pub system: Option<GeneratedArtifact>,
    pub component: Option<GeneratedArtifact>,
}

/// Renders the System artifact's text for `name`, with the dequeue-check
/// block inside the iteration hook exactly when `use_queue` is set.
pub fn generate_system_string(name: &str, use_queue: bool) -> (r: String)
    ensures
        r@ == spec_system_text(name@, use_queue),
{
    let mut r = String::new();
    r.append("using UnityEngine;\nusing System.Collections.Generic;\n\n// #jam\npublic class ");
    r.append(name);
    r.append("System : MonoBehaviour\n{\n    public static List<");
    r.append(name);
    r.append("> components = new List<");
    r.append(name);
    r.append(">();\n\n    private void Update()\n    {\n        foreach (var c in components)\n        {\n            ");
    if use_queue {
        r.append("if (c.queue.Count > 0)\n            {\n                var value = c.queue.Dequeue();\n            }");
    }
    r.append("\n        }\n    }\n}");
    proof {
        assert(r@ =~= spec_system_text(name@, use_queue));
    }
    r
}

/// Renders the Component artifact's text for `name`, with the dependency
/// example exactly when `use_start` is set and the queue field (and its
/// using directive) exactly when `use_queue` is set.
pub fn get_component(name: &str, use_start: bool, use_queue: bool) -> (r: String)
    ensures
        r@ == spec_component_text(name@, use_start, use_queue),
{
    let mut r = String::new();
    r.append("using UnityEngine;");
    if use_queue {
        r.append("\nusing System.Collections.Generic;");
    }
    r.append("\n\n// #jam\npublic class ");
    r.append(name);
    r.append(" : MonoBehaviour\n{");
    if use_queue {
        r.append("\n    public Queue<bool> queue = new Queue<bool>();\n");
    }
    if use_start {
        r.append("\n    public Transform dependency;\n\n    private void Start()\n    {\n        dependency = GetComponent<Transform>();\n    }\n");
    }
    r.append("\n    private void OnEnable()\n    {\n        ");
    r.append(name);
    r.append("System.components.Add(this);\n    }\n\n    private void OnDisable()\n    {\n        ");
    r.append(name);
    r.append("System.components.Remove(this);\n    }\n}");
    proof {
        assert(r@ =~= spec_component_text(name@, use_start, use_queue));
    }
    r
}

/// The file name the System artifact is meant to be written to.
pub fn system_filename(name: &str) -> (r: String)
    ensures
        r@ == spec_system_filename(name@),
{
    let mut r = String::new();
    r.append(name);
    r.append("System.cs");
    proof {
        assert(r@ =~= spec_system_filename(name@));
    }
    r
}

/// The file name the Component artifact is meant to be written to.
pub fn component_filename(name: &str) -> (r: String)
    ensures
        r@ == spec_component_filename(name@),
{
    let mut r = String::new();
    r.append(name);
    r.append(".cs");
    proof {
        assert(r@ =~= spec_component_filename(name@));
    }
    r
}

/// Renders the artifacts that `flags` asks for, System first, Component
/// second. A suppressed artifact is absent no matter what the other flags
/// say; a produced one carries exactly the text and file name of the model.
/// Rendering never fails: an empty identifier yields a degenerate but
/// well-formed artifact.
pub fn render(name: &str, flags: FeatureFlags) -> (r: RenderOutput)
    ensures
        r.system is Some <==> !flags.suppress_system,
        r.component is Some <==> !flags.suppress_component,
        !flags.suppress_system ==> r.system->0.filename@ == spec_system_filename(name@),
        !flags.suppress_system ==> r.system->0.text@ == spec_system_text(name@, flags.use_queue),
        !flags.suppress_component ==> r.component->0.filename@ == spec_component_filename(name@),
        !flags.suppress_component ==> r.component->0.text@ == spec_component_text(
            name@,
            flags.use_start,
            flags.use_queue,
        ),
{
    let system = if flags.suppress_system {
        None
    } else {
        Some(
            GeneratedArtifact {
                filename: system_filename(name),
                text: generate_system_string(name, flags.use_queue),
            },
        )
    };
    let component = if flags.suppress_component {
        None
    } else {
        Some(
            GeneratedArtifact {
                filename: component_filename(name),
                text: get_component(name, flags.use_start, flags.use_queue),
            },
        )
    };
    RenderOutput { system, component }
}

} // verus!
