use jam::generate::component_filename;
use jam::generate::generate_system_string;
use jam::generate::get_component;
use jam::generate::render;
use jam::generate::system_filename;
use jam::generate::FeatureFlags;

const ALL_OFF: FeatureFlags = FeatureFlags {
    use_start: false,
    use_queue: false,
    suppress_component: false,
    suppress_system: false,
};

#[test]
fn player_default_system() {
    let sys = generate_system_string("Player", false);
    let expected = "using UnityEngine;\n\
                    using System.Collections.Generic;\n\
                    \n\
                    // #jam\n\
                    public class PlayerSystem : MonoBehaviour\n\
                    {\n\
                    \x20   public static List<Player> components = new List<Player>();\n\
                    \n\
                    \x20   private void Update()\n\
                    \x20   {\n\
                    \x20       foreach (var c in components)\n\
                    \x20       {\n\
                    \x20           \n\
                    \x20       }\n\
                    \x20   }\n\
                    }";
    assert_eq!(sys, expected);
}

#[test]
fn player_default_component() {
    let comp = get_component("Player", false, false);
    let expected = "using UnityEngine;\n\
                    \n\
                    // #jam\n\
                    public class Player : MonoBehaviour\n\
                    {\n\
                    \x20   private void OnEnable()\n\
                    \x20   {\n\
                    \x20       PlayerSystem.components.Add(this);\n\
                    \x20   }\n\
                    \n\
                    \x20   private void OnDisable()\n\
                    \x20   {\n\
                    \x20       PlayerSystem.components.Remove(this);\n\
                    \x20   }\n\
                    }";
    assert_eq!(comp, expected);
    // The default rendering carries no queue field and no dependency block.
    assert!(!comp.contains("queue"));
    assert!(!comp.contains("dependency"));
}

#[test]
fn queue_flag_adds_dequeue_check_to_system() {
    let sys = generate_system_string("Player", true);
    let expected = "using UnityEngine;\n\
                    using System.Collections.Generic;\n\
                    \n\
                    // #jam\n\
                    public class PlayerSystem : MonoBehaviour\n\
                    {\n\
                    \x20   public static List<Player> components = new List<Player>();\n\
                    \n\
                    \x20   private void Update()\n\
                    \x20   {\n\
                    \x20       foreach (var c in components)\n\
                    \x20       {\n\
                    \x20           if (c.queue.Count > 0)\n\
                    \x20           {\n\
                    \x20               var value = c.queue.Dequeue();\n\
                    \x20           }\n\
                    \x20       }\n\
                    \x20   }\n\
                    }";
    assert_eq!(sys, expected);
}

#[test]
fn queue_flag_adds_field_and_using_to_component() {
    let comp = get_component("Player", false, true);
    let expected = "using UnityEngine;\n\
                    using System.Collections.Generic;\n\
                    \n\
                    // #jam\n\
                    public class Player : MonoBehaviour\n\
                    {\n\
                    \x20   public Queue<bool> queue = new Queue<bool>();\n\
                    \n\
                    \x20   private void OnEnable()\n\
                    \x20   {\n\
                    \x20       PlayerSystem.components.Add(this);\n\
                    \x20   }\n\
                    \n\
                    \x20   private void OnDisable()\n\
                    \x20   {\n\
                    \x20       PlayerSystem.components.Remove(this);\n\
                    \x20   }\n\
                    }";
    assert_eq!(comp, expected);
}

#[test]
fn queue_flag_changes_only_the_queue_slots() {
    // The queue-off texts, with the two queue fragments spliced into their
    // slots, give exactly the queue-on texts: nothing else moves.
    let sys_off = generate_system_string("Gem", false);
    let sys_on = generate_system_string("Gem", true);
    let dequeue_check = "if (c.queue.Count > 0)\n\
                         \x20           {\n\
                         \x20               var value = c.queue.Dequeue();\n\
                         \x20           }";
    assert_eq!(sys_on, sys_off.replacen("\n        }", &format!("{}\n        }}", dequeue_check), 1));

    let comp_off = get_component("Gem", false, false);
    let comp_on = get_component("Gem", false, true);
    let spliced = comp_off
        .replacen(
            "using UnityEngine;",
            "using UnityEngine;\nusing System.Collections.Generic;",
            1,
        )
        .replacen(
            ": MonoBehaviour\n{",
            ": MonoBehaviour\n{\n    public Queue<bool> queue = new Queue<bool>();\n",
            1,
        );
    assert_eq!(comp_on, spliced);
}

#[test]
fn start_flag_changes_only_the_start_slot() {
    let before = "using UnityEngine;\n\n// #jam\npublic class P : MonoBehaviour\n{";
    let start_block = "\n    public Transform dependency;\n\n    private void Start()\n    {\n        dependency = GetComponent<Transform>();\n    }\n";
    let after = "\n    private void OnEnable()\n    {\n        PSystem.components.Add(this);\n    }\n\n    private void OnDisable()\n    {\n        PSystem.components.Remove(this);\n    }\n}";
    assert_eq!(get_component("P", false, false), format!("{}{}", before, after));
    assert_eq!(get_component("P", true, false), format!("{}{}{}", before, start_block, after));
    // The System's text does not depend on the start flag at all.
    let with_start = FeatureFlags { use_start: true, ..ALL_OFF };
    let sys_plain = render("P", ALL_OFF).system.expect("system artifact").text;
    let sys_start = render("P", with_start).system.expect("system artifact").text;
    assert_eq!(sys_plain, sys_start);
}

#[test]
fn rendering_is_deterministic() {
    for &use_start in &[false, true] {
        for &use_queue in &[false, true] {
            assert_eq!(
                generate_system_string("Enemy", use_queue),
                generate_system_string("Enemy", use_queue),
            );
            assert_eq!(
                get_component("Enemy", use_start, use_queue),
                get_component("Enemy", use_start, use_queue),
            );
        }
    }
}

#[test]
fn output_is_trimmed() {
    for name in &["Player", "", "A B", "  Spaced  "] {
        for &use_start in &[false, true] {
            for &use_queue in &[false, true] {
                let sys = generate_system_string(name, use_queue);
                let comp = get_component(name, use_start, use_queue);
                assert_eq!(sys.trim(), sys);
                assert_eq!(comp.trim(), comp);
                assert!(!sys.is_empty());
                assert!(!comp.is_empty());
            }
        }
    }
}

#[test]
fn identifier_is_substituted_consistently() {
    let sys = generate_system_string("Voxel", false);
    assert!(sys.contains("public class VoxelSystem : MonoBehaviour"));
    assert!(sys.contains("public static List<Voxel> components = new List<Voxel>();"));
    let comp = get_component("Voxel", false, false);
    assert!(comp.contains("public class Voxel : MonoBehaviour"));
    assert!(comp.contains("VoxelSystem.components.Add(this);"));
    assert!(comp.contains("VoxelSystem.components.Remove(this);"));
}

#[test]
fn empty_identifier_renders_degenerate_artifacts() {
    let sys = generate_system_string("", false);
    assert!(sys.starts_with("using UnityEngine;"));
    assert!(sys.ends_with("}"));
    assert!(sys.contains("public class System : MonoBehaviour"));
    let comp = get_component("", false, false);
    assert!(comp.starts_with("using UnityEngine;"));
    assert!(comp.ends_with("}"));
}

#[test]
fn filenames_derive_from_identifier() {
    assert_eq!(system_filename("Player"), "PlayerSystem.cs");
    assert_eq!(component_filename("Player"), "Player.cs");
    assert_eq!(system_filename(""), "System.cs");
    assert_eq!(component_filename(""), ".cs");
}

#[test]
fn render_produces_system_then_component() {
    let out = render("Player", ALL_OFF);
    let sys = out.system.expect("system artifact");
    let comp = out.component.expect("component artifact");
    assert_eq!(sys.filename, "PlayerSystem.cs");
    assert_eq!(sys.text, generate_system_string("Player", false));
    assert_eq!(comp.filename, "Player.cs");
    assert_eq!(comp.text, get_component("Player", false, false));
}

#[test]
fn suppress_component_drops_only_the_component() {
    for &use_start in &[false, true] {
        for &use_queue in &[false, true] {
            let flags = FeatureFlags { use_start, use_queue, suppress_component: true, suppress_system: false };
            let out = render("Player", flags);
            assert!(out.component.is_none());
            assert!(out.system.is_some());
        }
    }
}

#[test]
fn suppress_system_drops_only_the_system() {
    for &use_start in &[false, true] {
        for &use_queue in &[false, true] {
            let flags = FeatureFlags { use_start, use_queue, suppress_component: false, suppress_system: true };
            let out = render("Player", flags);
            assert!(out.system.is_none());
            assert!(out.component.is_some());
        }
    }
}

#[test]
fn suppress_both_renders_nothing() {
    let flags = FeatureFlags {
        use_start: false,
        use_queue: false,
        suppress_component: true,
        suppress_system: true,
    };
    let out = render("Player", flags);
    assert!(out.system.is_none());
    assert!(out.component.is_none());
}
