//! Tests for the fragment validators, the blueprint assembler, and the
//! response parsers.

use arula::fragments::{
    ConstraintFragment, DomainFragment, ExampleFragment, FlowFragment, ProjectBlueprint,
};
use arula::init_system::InitSystem;
use arula::pipeline::InitPipeline;
use arula::sbp_assembler::SbpAssembler;
use arula::config::Config;

fn valid_blueprint() -> ProjectBlueprint {
    ProjectBlueprint {
        domain: DomainFragment {
            primary: "finance".to_string(),
            secondary_concerns: vec!["auditing".to_string(), "reporting".to_string()],
            scale_category: "medium".to_string(),
            data_sensitivity: "high".to_string(),
        },
        flow: FlowFragment {
            actions: vec!["ingest data".to_string(), "reconcile accounts".to_string()],
        },
        constraints: ConstraintFragment {
            constraints: vec![("language".to_string(), "rust".to_string())],
        },
        examples: ExampleFragment {
            scenarios: vec![("upload csv".to_string(), "balanced ledger".to_string())],
        },
    }
}

#[test]
fn test_domain_requires_primary() {
    let mut fragment = DomainFragment::default();
    assert_eq!(fragment.validate(), Err("Primary domain required".to_string()));
    fragment.primary = "games".to_string();
    assert_eq!(fragment.validate(), Ok(()));
}

#[test]
fn test_flow_validation() {
    let mut fragment = FlowFragment::default();
    assert_eq!(fragment.validate(), Err("At least 1 action required".to_string()));
    fragment.actions.push("parse input files quickly".to_string());
    assert_eq!(
        fragment.validate(),
        Err("Action too long: parse input files quickly".to_string())
    );
    fragment.actions[0] = "parse input".to_string();
    assert_eq!(fragment.validate(), Ok(()));
}

#[test]
fn test_constraint_validation() {
    let mut fragment = ConstraintFragment::default();
    assert_eq!(fragment.validate(), Ok(()));
    fragment.constraints.push(("colour".to_string(), "blue".to_string()));
    assert_eq!(fragment.validate(), Err("Invalid category: colour".to_string()));
    fragment.constraints[0] = ("platform".to_string(), "a rather long value".to_string());
    assert_eq!(
        fragment.validate(),
        Err("Value too long for platform: a rather long value".to_string())
    );
    fragment.constraints[0] = ("platform".to_string(), "linux".to_string());
    assert_eq!(fragment.validate(), Ok(()));
}

#[test]
fn test_example_validation() {
    let mut fragment = ExampleFragment::default();
    assert_eq!(fragment.validate(), Err("At least 1 example required".to_string()));
    fragment.scenarios.push((
        "an input description that runs on for far too many characters".to_string(),
        "out".to_string(),
    ));
    assert_eq!(fragment.validate(), Err("Example too long (max 40 chars)".to_string()));
    fragment.scenarios[0] = ("in".to_string(), "out".to_string());
    assert_eq!(fragment.validate(), Ok(()));
}

#[test]
fn test_blueprint_validation_order() {
    let mut blueprint = valid_blueprint();
    assert_eq!(blueprint.validate(), Ok(()));
    blueprint.flow.actions.clear();
    blueprint.examples.scenarios.clear();
    // The flow failure comes first.
    assert_eq!(blueprint.validate(), Err("At least 1 action required".to_string()));
}

#[test]
fn test_assembler_outputs() {
    let assembler = SbpAssembler::new();
    let files = assembler.assemble(&valid_blueprint()).unwrap();
    assert_eq!(
        files.domain_sbp,
        "DOMAIN {\n  primary: finance\n  concerns: [\n    auditing\n    reporting\n  ]\n  scale: medium\n  sensitivity: high\n}\n"
    );
    assert_eq!(
        files.flow_sbp,
        "FLOW {\n  actions: [\n    1: ingest data\n    2: reconcile accounts\n  ]\n}\n"
    );
    assert_eq!(files.constraints_sbp, "CONSTRAINTS {\n  language: rust\n}\n");
    assert_eq!(
        files.examples_sbp,
        "EXAMPLES {\n  scenarios: [\n    1 {\n      input: \"upload csv\"\n      output: \"balanced ledger\"\n    }\n  ]\n}\n"
    );
}

#[test]
fn test_assembler_escapes_quotes_and_limits() {
    let assembler = SbpAssembler::new();
    let mut blueprint = valid_blueprint();
    blueprint.examples.scenarios = vec![
        ("say \"hi\"".to_string(), "ok".to_string()),
        ("two".to_string(), "2".to_string()),
        ("three".to_string(), "3".to_string()),
        ("four".to_string(), "4".to_string()),
    ];
    blueprint.flow.actions = (1..=12).map(|i| format!("step {}", i)).collect();
    let files = assembler.assemble(&blueprint).unwrap();
    // Quotes are escaped, and only the first three scenarios appear.
    assert!(files.examples_sbp.contains("input: \"say \\\"hi\\\"\""));
    assert!(files.examples_sbp.contains("    3 {"));
    assert!(!files.examples_sbp.contains("    4 {"));
    // Only the first ten actions are numbered.
    assert!(files.flow_sbp.contains("    10: step 10\n"));
    assert!(!files.flow_sbp.contains("step 11"));
}

#[test]
fn test_assembler_rejects_invalid_blueprint() {
    let assembler = SbpAssembler::new();
    let mut blueprint = valid_blueprint();
    blueprint.domain.primary = String::new();
    let err = assembler.assemble(&blueprint).unwrap_err();
    assert_eq!(err, "Invalid blueprint: Primary domain required");
}

#[test]
fn test_init_system_generates_files() {
    let system = InitSystem::new(Config::default());
    let files = system.generate_sbp_files(&valid_blueprint()).unwrap();
    assert!(files.domain_sbp.starts_with("DOMAIN {\n"));
    assert!(files.flow_sbp.ends_with("}\n"));
}

#[test]
fn test_validate_response() {
    let pipeline = InitPipeline::new();
    assert!(pipeline.validate_response("domain: web\nscale: small"));
    assert!(!pipeline.validate_response(""));
    assert!(!pipeline.validate_response("uses ```code``` fences"));
    assert!(!pipeline.validate_response("uses **bold** text"));
    assert!(!pipeline.validate_response("## a header"));
    let too_many = vec!["line"; 16].join("\n");
    assert!(!pipeline.validate_response(&too_many));
}

#[test]
fn test_parse_domain_fragment() {
    let pipeline = InitPipeline::new();
    let response = "domain: web commerce\nconcerns: payments, fraud, , scaling, extra\nscale: medium\nsensitivity: high";
    let fragment = pipeline.parse_domain_fragment(response).unwrap();
    assert_eq!(fragment.primary, "web commerce");
    // Blank pieces are dropped and only the first three concerns kept.
    assert_eq!(
        fragment.secondary_concerns,
        vec!["payments".to_string(), "fraud".to_string(), "scaling".to_string()]
    );
    assert_eq!(fragment.scale_category, "medium");
    assert_eq!(fragment.data_sensitivity, "high");
}

#[test]
fn test_parse_domain_takes_piece_between_colons() {
    let pipeline = InitPipeline::new();
    let fragment = pipeline.parse_domain_fragment("domain: retail: online").unwrap();
    // Only the piece between the first and second colon counts.
    assert_eq!(fragment.primary, "retail");
}

#[test]
fn test_parse_flow_fragment() {
    let pipeline = InitPipeline::new();
    let fragment = pipeline.parse_flow_fragment("  list files\n\n  sort results \n").unwrap();
    assert_eq!(fragment.actions, vec!["list files".to_string(), "sort results".to_string()]);
}

#[test]
fn test_parse_constraint_fragment() {
    let pipeline = InitPipeline::new();
    let response = "language: rust\nplatform: linux\nlanguage: zig\nno colon here";
    let fragment = pipeline.parse_constraint_fragment(response).unwrap();
    // The later duplicate key overwrites the earlier entry in place.
    assert_eq!(
        fragment.constraints,
        vec![
            ("language".to_string(), "zig".to_string()),
            ("platform".to_string(), "linux".to_string()),
        ]
    );
}

#[test]
fn test_parse_example_fragment() {
    let pipeline = InitPipeline::new();
    let response = "INPUT: add 2 3\nOUTPUT: 5\nnot tagged\nalso untagged\nINPUT: sub 9 4\nOUTPUT: 5";
    let fragment = pipeline.parse_example_fragment(response).unwrap();
    assert_eq!(
        fragment.scenarios,
        vec![
            ("add 2 3".to_string(), "5".to_string()),
            ("sub 9 4".to_string(), "5".to_string()),
        ]
    );
}
