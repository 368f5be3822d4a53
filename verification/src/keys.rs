//! Attestation-bound key provisioning: rendering the access-control policy
//! from an image's measurements and planning the key and alias creation.
//!
//! The policy document grants broad administrative actions to the principal
//! unconditionally, grants decrypt only when the caller's attestation-reported
//! measurements equal the supplied ones, and grants a narrow set of non-secret
//! actions from anywhere.

use vstd::prelude::*;

verus! {

/// The three fixed-length measurement digests produced by the image build.
#[derive(Clone, Debug)]
pub struct MeasurementSet {
    pub pcr0: String,
    pub pcr1: String,
    pub pcr2: String,
}

/// The policy up to the administrative statement's principal.
pub open spec fn seg_head() -> Seq<char> {
    "{
    \"Version\": \"2012-10-17\",
    \"Statement\": [
        {
            \"Sid\": \"Allow access for Key Administrators\",
            \"Effect\": \"Allow\",
            \"Principal\": {
                \"AWS\": \""@
}

/// From the administrative principal to the enclave statement's principal.
pub open spec fn seg_enclave() -> Seq<char> {
    "\"
            },
            \"Action\": [
                \"kms:ScheduleKeyDeletion\",
                \"kms:Revoke*\",
                \"kms:List*\",
                \"kms:GetKeyPolicy\",
                \"kms:Encrypt\",
                \"kms:GetPublicKey\",
                \"kms:Enable*\",
                \"kms:Disable*\",
                \"kms:Describe*\",
                \"kms:Delete*\",
                \"kms:Create*\",
                \"kms:CancelKeyDeletion\"
            ],
            \"Resource\": \"*\"
        },
        {
            \"Sid\": \"Enabled from enclave ONLY\",
            \"Effect\": \"Allow\",
            \"Principal\": {
                \"AWS\": \""@
}

/// From the enclave statement's principal to the first measurement.
pub open spec fn seg_pcr0() -> Seq<char> {
    "\"
            },
            \"Action\": \"kms:Decrypt\",
            \"Resource\": \"*\",
            \"Condition\": {
                \"ForAnyValue:StringEqualsIgnoreCase\": {
                    \"kms:RecipientAttestation:PCR0\": [\""@
}

/// Between the first and the second measurement.
pub open spec fn seg_pcr1() -> Seq<char> {
    "\"],
                    \"kms:RecipientAttestation:PCR1\": [\""@
}

/// Between the second and the third measurement.
pub open spec fn seg_pcr2() -> Seq<char> {
    "\"],
                    \"kms:RecipientAttestation:PCR2\": [\""@
}

/// From the third measurement to the from-anywhere statement's principal.
pub open spec fn seg_anywhere() -> Seq<char> {
    "\"]
                }
            }
        },
        {
            \"Sid\": \"Enabled from anywhere\",
            \"Effect\": \"Allow\",
            \"Principal\": {
                \"AWS\": \""@
}

/// The rest of the policy after the last principal.
pub open spec fn seg_tail() -> Seq<char> {
    "\"
            },
            \"Action\": [
                \"kms:GetKeyPolicy\",
                \"kms:Encrypt\",
                \"kms:GetPublicKey\",
                \"kms:TagResource\"
            ],
            \"Resource\": \"*\"
        }
    ]
}
"@
}

/// The rendered policy: the fixed document with the principal substituted in
/// each of its three statements and the three measurements in the decrypt
/// condition.
pub open spec fn policy_doc(p: Seq<char>, a: Seq<char>, b: Seq<char>, c: Seq<char>) -> Seq<char> {
    seg_head() + p + seg_enclave() + p + seg_pcr0() + a + seg_pcr1() + b + seg_pcr2() + c
        + seg_anywhere() + p + seg_tail()
}

/// Renders the access-control policy for a principal and an image's
/// measurements.
pub fn render_policy(principal: &str, m: &MeasurementSet) -> (r: String)
    ensures
        r@ == policy_doc(principal@, m.pcr0@, m.pcr1@, m.pcr2@),
{
    let mut out: String = "{
    \"Version\": \"2012-10-17\",
    \"Statement\": [
        {
            \"Sid\": \"Allow access for Key Administrators\",
            \"Effect\": \"Allow\",
            \"Principal\": {
                \"AWS\": \"".to_owned();
    out.append(principal);
    out.append(
        "\"
            },
            \"Action\": [
                \"kms:ScheduleKeyDeletion\",
                \"kms:Revoke*\",
                \"kms:List*\",
                \"kms:GetKeyPolicy\",
                \"kms:Encrypt\",
                \"kms:GetPublicKey\",
                \"kms:Enable*\",
                \"kms:Disable*\",
                \"kms:Describe*\",
                \"kms:Delete*\",
                \"kms:Create*\",
                \"kms:CancelKeyDeletion\"
            ],
            \"Resource\": \"*\"
        },
        {
            \"Sid\": \"Enabled from enclave ONLY\",
            \"Effect\": \"Allow\",
            \"Principal\": {
                \"AWS\": \"",
    );
    out.append(principal);
    out.append(
        "\"
            },
            \"Action\": \"kms:Decrypt\",
            \"Resource\": \"*\",
            \"Condition\": {
                \"ForAnyValue:StringEqualsIgnoreCase\": {
                    \"kms:RecipientAttestation:PCR0\": [\"",
    );
    out.append(m.pcr0.as_str());
    out.append(
        "\"],
                    \"kms:RecipientAttestation:PCR1\": [\"",
    );
    out.append(m.pcr1.as_str());
    out.append(
        "\"],
                    \"kms:RecipientAttestation:PCR2\": [\"",
    );
    out.append(m.pcr2.as_str());
    out.append(
        "\"]
                }
            }
        },
        {
            \"Sid\": \"Enabled from anywhere\",
            \"Effect\": \"Allow\",
            \"Principal\": {
                \"AWS\": \"",
    );
    out.append(principal);
    out.append(
        "\"
            },
            \"Action\": [
                \"kms:GetKeyPolicy\",
                \"kms:Encrypt\",
                \"kms:GetPublicKey\",
                \"kms:TagResource\"
            ],
            \"Resource\": \"*\"
        }
    ]
}
",
    );
    proof {
        assert(out@ =~= policy_doc(principal@, m.pcr0@, m.pcr1@, m.pcr2@));
    }
    out
}

/// Law: the rendered policy embeds its inputs verbatim — the principal
/// appears unaltered in each of the three statements and each measurement
/// unaltered in the decrypt condition, with no truncation and no case
/// alteration, and the document's length accounts for every character.
pub proof fn lemma_policy_embeds_inputs(p: Seq<char>, a: Seq<char>, b: Seq<char>, c: Seq<char>)
    ensures
        ({
            let d = policy_doc(p, a, b, c);
            let o1 = seg_head().len() as int;
            let o2 = o1 + p.len() + seg_enclave().len();
            let o3 = o2 + p.len() + seg_pcr0().len();
            let o4 = o3 + a.len() + seg_pcr1().len();
            let o5 = o4 + b.len() + seg_pcr2().len();
            let o6 = o5 + c.len() + seg_anywhere().len();
            &&& d.subrange(o1, o1 + p.len() as int) == p
            &&& d.subrange(o2, o2 + p.len() as int) == p
            &&& d.subrange(o3, o3 + a.len() as int) == a
            &&& d.subrange(o4, o4 + b.len() as int) == b
            &&& d.subrange(o5, o5 + c.len() as int) == c
            &&& d.subrange(o6, o6 + p.len() as int) == p
            &&& d.len() == seg_head().len() + seg_enclave().len() + seg_pcr0().len()
                + seg_pcr1().len() + seg_pcr2().len() + seg_anywhere().len() + seg_tail().len()
                + 3 * p.len() + a.len() + b.len() + c.len()
        }),
{
    let d = policy_doc(p, a, b, c);
    let o1 = seg_head().len() as int;
    let o2 = o1 + p.len() + seg_enclave().len();
    let o3 = o2 + p.len() + seg_pcr0().len();
    let o4 = o3 + a.len() + seg_pcr1().len();
    let o5 = o4 + b.len() + seg_pcr2().len();
    let o6 = o5 + c.len() + seg_anywhere().len();
    assert(d.subrange(o1, o1 + p.len() as int) =~= p);
    assert(d.subrange(o2, o2 + p.len() as int) =~= p);
    assert(d.subrange(o3, o3 + a.len() as int) =~= a);
    assert(d.subrange(o4, o4 + b.len() as int) =~= b);
    assert(d.subrange(o5, o5 + c.len() as int) =~= c);
    assert(d.subrange(o6, o6 + p.len() as int) =~= p);
}

/// The fixed prefix of every alias this orchestrator creates.
pub open spec fn alias_prefix() -> Seq<char> {
    "alias/nitrogen-"@
}

/// Builds the alias name for a fresh identifier.
pub fn make_alias(id: &str) -> (r: String)
    ensures
        r@ == alias_prefix() + id@,
{
    let mut s: String = "alias/nitrogen-".to_owned();
    s.append(id);
    s
}

/// Declares the uuid crate's identifier type so that a drawn identifier can
/// be carried through; the value itself stays opaque.
#[verifier::external_type_specification]
#[verifier::external_body]
pub struct ExUuid(uuid::Uuid);

/// Relies on uuid::Uuid::new_v4: draws a fresh random version-4 identifier.
/// The value is random, so nothing is promised of it.
#[verifier::external_body]
fn fresh_uuid() -> uuid::Uuid {
    uuid::Uuid::new_v4()
}

/// Relies on uuid's Display implementation: an identifier renders in the
/// hyphenated form, which is exactly 36 characters.
#[verifier::external_body]
fn uuid_hyphenated(u: &uuid::Uuid) -> (r: String)
    ensures
        r@.len() == 36,
{
    format!("{}", u)
}

/// Creates a fresh alias name: the fixed prefix followed by a fresh random
/// identifier, so that aliases of independently provisioned keys do not
/// collide.
pub fn fresh_alias() -> (r: String)
    ensures
        r@.len() == alias_prefix().len() + 36,
        r@.subrange(0, alias_prefix().len() as int) == alias_prefix(),
{
    let id = fresh_uuid();
    let s = uuid_hyphenated(&id);
    let r = make_alias(s.as_str());
    proof {
        assert(r@.subrange(0, alias_prefix().len() as int) =~= alias_prefix());
    }
    r
}

/// The key creation request: an asymmetric key for encrypt and decrypt under
/// the rendered policy, with the policy-lockout safety check bypassed —
/// required because the policy intentionally restricts the caller's own
/// unconditional access to a subset of actions.
#[derive(Debug)]
pub struct KeyCreationPlan {
    pub policy: String,
    pub key_spec: String,
    pub key_usage: String,
    pub bypass_policy_lockout_safety_check: bool,
}

/// Plans the key creation for a principal and an image's measurements.
pub fn plan_key_creation(principal: &str, m: &MeasurementSet) -> (r: KeyCreationPlan)
    ensures
        r.policy@ == policy_doc(principal@, m.pcr0@, m.pcr1@, m.pcr2@),
        r.key_spec@ == "RSA_4096"@,
        r.key_usage@ == "ENCRYPT_DECRYPT"@,
        r.bypass_policy_lockout_safety_check,
{
    KeyCreationPlan {
        policy: render_policy(principal, m),
        key_spec: "RSA_4096".to_owned(),
        key_usage: "ENCRYPT_DECRYPT".to_owned(),
        bypass_policy_lockout_safety_check: true,
    }
}

/// A provisioned key: its ARN and the alias created for it.
#[derive(Debug)]
pub struct KeyOutput {
    pub arn: String,
    pub alias: String,
}

} // verus!
