use nitrogen::keys::{fresh_alias, make_alias, plan_key_creation, render_policy, MeasurementSet};
use serde_json::Value;

fn measurements() -> MeasurementSet {
    MeasurementSet {
        pcr0: "6e5f9f840dd17f3ab4deaf1954e65302642ac4ee4365382afa5ec970045d2a3448f222431208494daa1fa59d78b8b3f8".to_string(),
        pcr1: "Bcdf05feFccaa8e55bf2c8d6dee9e79bbff31e34bf28a99aa19e6b29c37ee80b214a414b7607236edf26fcb78654e63f".to_string(),
        pcr2: "d8afbe78d624566500651d1abd46c87c0b32c6ae309690dcaa26d87f8069a4828a9a95b4ea5c05f765ae8571728becaa".to_string(),
    }
}

const PRINCIPAL: &str = "arn:aws:iam::123456789012:role/deployer";

#[test]
fn rendered_policy_reparses_with_the_inputs_intact() {
    let m = measurements();
    let rendered = render_policy(PRINCIPAL, &m);
    let doc: Value = serde_json::from_str(&rendered).expect("the rendered policy must be valid");

    let statements = doc["Statement"].as_array().expect("a statement list");
    assert_eq!(statements.len(), 3);

    // Exactly one principal value: every statement names the supplied one.
    for statement in statements {
        assert_eq!(
            statement["Principal"]["AWS"].as_str().unwrap(),
            PRINCIPAL,
            "the principal must appear unaltered"
        );
    }

    // Exactly three measurement values, equal to the inputs, case intact.
    let condition = &statements[1]["Condition"]["ForAnyValue:StringEqualsIgnoreCase"];
    let cond_map = condition.as_object().expect("a condition map");
    assert_eq!(cond_map.len(), 3);
    for (key, expected) in [
        ("kms:RecipientAttestation:PCR0", &m.pcr0),
        ("kms:RecipientAttestation:PCR1", &m.pcr1),
        ("kms:RecipientAttestation:PCR2", &m.pcr2),
    ] {
        let values = condition[key].as_array().expect("one value per measurement");
        assert_eq!(values.len(), 1);
        assert_eq!(values[0].as_str().unwrap(), expected);
    }
}

#[test]
fn rendered_policy_grants_decrypt_only_in_the_enclave_statement() {
    let rendered = render_policy(PRINCIPAL, &measurements());
    let doc: Value = serde_json::from_str(&rendered).unwrap();
    let statements = doc["Statement"].as_array().unwrap();
    assert_eq!(statements[1]["Action"].as_str().unwrap(), "kms:Decrypt");
    assert!(statements[1]["Condition"].is_object());
    assert!(statements[0]["Condition"].is_null());
    assert!(statements[2]["Condition"].is_null());
}

#[test]
fn key_plan_is_asymmetric_encrypt_decrypt_with_lockout_bypassed() {
    let plan = plan_key_creation(PRINCIPAL, &measurements());
    assert_eq!(plan.key_spec, "RSA_4096");
    assert_eq!(plan.key_usage, "ENCRYPT_DECRYPT");
    assert!(plan.bypass_policy_lockout_safety_check);
    assert!(plan.policy.contains(PRINCIPAL));
}

#[test]
fn alias_is_prefix_plus_identifier() {
    assert_eq!(make_alias("abc"), "alias/nitrogen-abc");
}

#[test]
fn fresh_aliases_carry_the_prefix_and_do_not_collide() {
    let a = fresh_alias();
    let b = fresh_alias();
    assert!(a.starts_with("alias/nitrogen-"));
    assert_eq!(a.len(), "alias/nitrogen-".len() + 36);
    assert_ne!(a, b, "two fresh aliases must embed different identifiers");
}
