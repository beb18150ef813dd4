use crate::backend::{copy_into, Backend, Entries};
use crate::provider::{answer_view, ActionRequest, Provider, ProviderError};
use crate::{path_join, text_eq, KeyPath};
use vstd::prelude::*;

verus! {

#[verifier::external_type_specification]
#[verifier::external_body]
pub struct ExEd25519Error(libcrux_ed25519::Error);

#[verifier::external_type_specification]
#[verifier::external_body]
pub struct ExRandomnessError(getrandom::Error);

/// The Ed25519 public key of a 32-byte secret key, as libcrux computes it.
pub uninterp spec fn ed25519_public_key(secret: Seq<u8>) -> Seq<u8>;

/// The Ed25519 signature of `payload` under a 32-byte secret key, as libcrux
/// computes it.
pub uninterp spec fn ed25519_signature(payload: Seq<u8>, secret: Seq<u8>) -> Seq<u8>;

/// Calls `libcrux_ed25519::secret_to_public`. Claimed: the 32-byte result is
/// determined by the secret key alone.
#[verifier::external_body]
fn public_key_of(secret: &[u8]) -> (public_key: Vec<u8>)
    requires
        secret@.len() == 32,
    ensures
        public_key@ == ed25519_public_key(secret@),
        public_key@.len() == 32,
{
    let secret: &[u8; 32] = secret.try_into().unwrap();
    let mut public_key = [0u8; 32];
    libcrux_ed25519::secret_to_public(&mut public_key, secret);
    public_key.to_vec()
}

/// Calls `libcrux_ed25519::sign`. Claimed, as its source shows: it fails
/// exactly when the payload is longer than `u32::MAX` bytes, and otherwise
/// returns a 64-byte signature determined by the payload and the secret key.
#[verifier::external_body]
fn sign_payload(payload: &[u8], secret: &[u8]) -> (r: Result<Vec<u8>, libcrux_ed25519::Error>)
    requires
        secret@.len() == 32,
    ensures
        r is Err <==> payload@.len() > u32::MAX,
        r matches Ok(signature) ==> signature@ == ed25519_signature(payload@, secret@)
            && signature@.len() == 64,
{
    let secret: &[u8; 32] = secret.try_into().unwrap();
    match libcrux_ed25519::sign(payload, secret) {
        Ok(signature) => Ok(signature.to_vec()),
        Err(e) => Err(e),
    }
}

/// Formats a libcrux error with its derived `Debug`. Nothing is claimed of the
/// text.
#[verifier::external_body]
fn ed25519_error_text(e: libcrux_ed25519::Error) -> String {
    format!("{:?}", e)
}

/// Calls `getrandom::fill` on 32 bytes. Claimed: on success the result holds
/// 32 bytes; nothing is claimed of their values, nor of when the system's
/// source of randomness fails.
#[verifier::external_body]
fn random_secret() -> (r: Result<Vec<u8>, getrandom::Error>)
    ensures
        r matches Ok(secret) ==> secret@.len() == 32,
{
    let mut secret = [0u8; 32];
    match getrandom::fill(&mut secret) {
        Ok(()) => Ok(secret.to_vec()),
        Err(e) => Err(e),
    }
}

/// The provider of Ed25519 keys and signatures.
pub struct LibCruxEd25519Provider;

/// The actions that the Ed25519 provider knows.
pub enum LibCruxEd25519Action {
    Generate,
    Sign,
}

/// The path, under the scope of a request, at which the provider keeps the
/// secret key: the scope joined with the empty path.
pub open spec fn secret_path(scope: Seq<char>) -> Seq<char> {
    path_join(scope, Seq::empty())
}

/// 32 zero bytes: the buffer that the secret key is read into.
pub open spec fn zero_key() -> Seq<u8> {
    Seq::new(32, |i: int| 0u8)
}

/// The secret key that a sign action uses: the data stored at the key's path,
/// read into 32 zero bytes.
pub open spec fn stored_secret(entries: Entries, scope: Seq<char>) -> Seq<u8> {
    copy_into(entries[secret_path(scope)], zero_key())
}

/// The message of a generate that found no randomness.
pub open spec fn no_randomness_message() -> Seq<char> {
    "Random key generation failed"@
}

/// What a generate with the 32-byte `secret` does: it stores the secret at the
/// key's path and answers its public key when that path holds nothing, and
/// refuses a path that holds a key.
pub open spec fn generate_with_meets(
    scope: Seq<char>,
    secret: Seq<u8>,
    before: Entries,
    after: Entries,
    result: Result<Seq<u8>, ProviderError>,
) -> bool {
    let key = secret_path(scope);
    if before.contains_key(key) {
        &&& result matches Err(ProviderError::BackendError { source }) && source.is_already_exists(key)
        &&& after == before
    } else {
        &&& result == Ok::<Seq<u8>, ProviderError>(ed25519_public_key(secret))
        &&& ed25519_public_key(secret).len() == 32
        &&& after == before.insert(key, secret)
    }
}

/// What a generate action does: it draws a 32-byte secret and proceeds as
/// `generate_with_meets` says; when no randomness can be had it changes
/// nothing and says so.
pub open spec fn generate_meets(
    scope: Seq<char>,
    before: Entries,
    after: Entries,
    result: Result<Seq<u8>, ProviderError>,
) -> bool {
    ||| exists|secret: Seq<u8>|
        secret.len() == 32 && #[trigger] generate_with_meets(scope, secret, before, after, result)
    ||| {
        &&& result matches Err(ProviderError::ProviderError { message }) && message@ == no_randomness_message()
        &&& after == before
    }
}

/// The message of a sign that libcrux refused, around the text of its error.
pub open spec fn is_signing_failure(message: Seq<char>) -> bool {
    exists|text: Seq<char>| message == #[trigger] ("Signing failed: "@ + text)
}

/// What a sign action does: it changes nothing; with no key stored it reports
/// the missing path; otherwise it answers the 64-byte signature of the payload
/// under the stored secret, unless the payload is too long to sign.
pub open spec fn sign_meets(
    payload: Seq<u8>,
    scope: Seq<char>,
    before: Entries,
    after: Entries,
    result: Result<Seq<u8>, ProviderError>,
) -> bool {
    let key = secret_path(scope);
    &&& after == before
    &&& if !before.contains_key(key) {
        result matches Err(ProviderError::BackendError { source }) && source.is_key_not_found(key)
    } else if payload.len() > u32::MAX {
        result matches Err(ProviderError::ProviderError { message }) && is_signing_failure(message@)
    } else {
        &&& result == Ok::<Seq<u8>, ProviderError>(ed25519_signature(payload, stored_secret(before, scope)))
        &&& ed25519_signature(payload, stored_secret(before, scope)).len() == 64
    }
}

/// The message of an action that the provider does not know.
pub open spec fn unknown_action_message(action_id: Seq<char>) -> Seq<char> {
    "Unknown action: "@ + action_id
}

/// A signature made after a successful generate, on the same key, is made with
/// the secret whose public key the generate answered.
pub proof fn lemma_sign_uses_generated_key(
    scope: Seq<char>,
    generate_payload: Seq<u8>,
    payload: Seq<u8>,
    e0: Entries,
    e1: Entries,
    e2: Entries,
    public_key: Seq<u8>,
    signature: Seq<u8>,
)
    requires
        LibCruxEd25519Provider.outcome("generate"@, generate_payload, scope, e0, e1, Ok(public_key)),
        LibCruxEd25519Provider.outcome("sign"@, payload, scope, e1, e2, Ok(signature)),
    ensures
        exists|secret: Seq<u8>|
            secret.len() == 32 && public_key == ed25519_public_key(secret) && #[trigger] ed25519_signature(
                payload,
                secret,
            ) == signature,
        e2 == e1,
{
    reveal_strlit("generate");
    reveal_strlit("sign");
    reveal_strlit("Random key generation failed");
    assert("generate"@.len() != "sign"@.len());
    let key = secret_path(scope);
    let secret = choose|secret: Seq<u8>|
        secret.len() == 32 && #[trigger] generate_with_meets(scope, secret, e0, e1, Ok(public_key));
    assert(e1[key] == secret);
    assert(copy_into(secret, zero_key()) =~= secret);
    assert(ed25519_signature(payload, secret) == signature);
}

/// A generate on a key that already holds a secret fails and changes nothing.
pub proof fn lemma_generate_keeps_existing_key(
    scope: Seq<char>,
    payload: Seq<u8>,
    e0: Entries,
    e1: Entries,
    result: Result<Seq<u8>, ProviderError>,
)
    requires
        LibCruxEd25519Provider.outcome("generate"@, payload, scope, e0, e1, result),
        e0.contains_key(secret_path(scope)),
    ensures
        result is Err,
        e1 == e0,
{
}

/// An action of the provider touches no path but the secret's path of its own
/// key.
pub proof fn lemma_action_touches_only_its_key(
    action_id: Seq<char>,
    payload: Seq<u8>,
    scope: Seq<char>,
    e0: Entries,
    e1: Entries,
    result: Result<Seq<u8>, ProviderError>,
    other: Seq<char>,
)
    requires
        LibCruxEd25519Provider.outcome(action_id, payload, scope, e0, e1, result),
        other != secret_path(scope),
    ensures
        e1.contains_key(other) == e0.contains_key(other),
        e0.contains_key(other) ==> e1[other] == e0[other],
{
}

impl LibCruxEd25519Action {
    /// The action named `s`, which must be "generate" or "sign".
    pub fn from(s: &str) -> (r: Self)
        requires
            s@ == "generate"@ || s@ == "sign"@,
        ensures
            r is Generate <==> s@ == "generate"@,
            r is Sign <==> s@ == "sign"@,
    {
        proof {
            reveal_strlit("generate");
            reveal_strlit("sign");
            assert("generate"@.len() != "sign"@.len());
        }
        if text_eq(s, "generate") {
            LibCruxEd25519Action::Generate
        } else {
            LibCruxEd25519Action::Sign
        }
    }
}

impl Provider for LibCruxEd25519Provider {
    open spec fn spec_name(&self) -> Seq<char> {
        "builtin-libcrux-ed25519"@
    }

    open spec fn spec_version(&self) -> Seq<char> {
        "0.1.0"@
    }

    open spec fn outcome(
        &self,
        action_id: Seq<char>,
        payload: Seq<u8>,
        scope: Seq<char>,
        before: Entries,
        after: Entries,
        result: Result<Seq<u8>, ProviderError>,
    ) -> bool {
        if action_id == "generate"@ {
            generate_meets(scope, before, after, result)
        } else if action_id == "sign"@ {
            sign_meets(payload, scope, before, after, result)
        } else {
            &&& result matches Err(ProviderError::ProviderError { message })
                && message@ == unknown_action_message(action_id)
            &&& after == before
        }
    }

    fn name(&self) -> (r: String) {
        "builtin-libcrux-ed25519".to_string()
    }

    fn version(&self) -> (r: String) {
        "0.1.0".to_string()
    }

    fn do_action<B: Backend>(&self, request: &mut ActionRequest<'_, B>) -> (r: Result<Vec<u8>, ProviderError>) {
        proof {
            reveal_strlit("generate");
            reveal_strlit("sign");
            reveal_strlit("Random key generation failed");
            reveal_strlit("Unknown action: ");
        }
        let is_generate = text_eq(request.action_id.as_str(), "generate");
        let is_sign = text_eq(request.action_id.as_str(), "sign");
        if !is_generate && !is_sign {
            let mut message = "Unknown action: ".to_string();
            message.append(request.action_id.as_str());
            return Err(ProviderError::ProviderError { message });
        }
        let action = LibCruxEd25519Action::from(request.action_id.as_str());
        match action {
            LibCruxEd25519Action::Generate => {
                let drawn = random_secret();
                let r = generate_from(request, drawn);
                proof {
                    if drawn is Ok {
                        assert(generate_with_meets(
                            old(request).scoped_backend.scope@,
                            drawn->Ok_0@,
                            old(request).scoped_backend.entries(),
                            request.scoped_backend.entries(),
                            answer_view(r),
                        ));
                    }
                }
                r
            },
            LibCruxEd25519Action::Sign => sign_with_stored_key(request),
        }
    }
}

/// A generate with the outcome `drawn` of drawing 32 random bytes: with a
/// secret drawn, it stores it at the key's path (unless that path holds a key)
/// and answers its public key; when the draw failed it answers that and
/// changes nothing. So the failure message comes exactly from a failed draw.
pub fn generate_from<B: Backend>(
    request: &mut ActionRequest<'_, B>,
    drawn: Result<Vec<u8>, getrandom::Error>,
) -> (r: Result<Vec<u8>, ProviderError>)
    requires
        drawn matches Ok(secret) ==> secret@.len() == 32,
    ensures
        match drawn {
            Ok(secret) => generate_with_meets(
                old(request).scoped_backend.scope@,
                secret@,
                old(request).scoped_backend.entries(),
                final(request).scoped_backend.entries(),
                answer_view(r),
            ),
            Err(_) => {
                &&& r matches Err(ProviderError::ProviderError { message }) && message@ == no_randomness_message()
                &&& final(request).scoped_backend.entries() == old(request).scoped_backend.entries()
            },
        },
        *final(final(request).scoped_backend.backend) == *final(old(request).scoped_backend.backend),
        final(request).action_id == old(request).action_id,
        final(request).payload == old(request).payload,
        final(request).scoped_backend.scope@ == old(request).scoped_backend.scope@,
{
    proof {
        reveal_strlit("Random key generation failed");
    }
    match drawn {
        Ok(secret) => generate_with(request, secret),
        Err(_) => Err(ProviderError::ProviderError { message: "Random key generation failed".to_string() }),
    }
}

/// Stores the 32-byte `secret` at the key's path, unless that path holds a key
/// already, and answers its public key.
pub fn generate_with<B: Backend>(request: &mut ActionRequest<'_, B>, secret: Vec<u8>) -> (r: Result<
    Vec<u8>,
    ProviderError,
>)
    requires
        secret@.len() == 32,
    ensures
        generate_with_meets(
            old(request).scoped_backend.scope@,
            secret@,
            old(request).scoped_backend.entries(),
            final(request).scoped_backend.entries(),
            answer_view(r),
        ),
        *final(final(request).scoped_backend.backend) == *final(old(request).scoped_backend.backend),
        final(request).action_id == old(request).action_id,
        final(request).payload == old(request).payload,
        final(request).scoped_backend.scope@ == old(request).scoped_backend.scope@,
{
    let here = KeyPath::from("");
    proof {
        reveal_strlit("");
    }
    assert(here@ =~= Seq::<char>::empty());
    match request.scoped_backend.create(&here, secret.as_slice()) {
        Ok(()) => {},
        Err(e) => {
            return Err(ProviderError::BackendError { source: e });
        },
    }
    Ok(public_key_of(secret.as_slice()))
}

/// Signs the request's payload with the secret stored at the key's path.
fn sign_with_stored_key<B: Backend>(request: &mut ActionRequest<'_, B>) -> (r: Result<Vec<u8>, ProviderError>)
    ensures
        sign_meets(
            old(request).payload@,
            old(request).scoped_backend.scope@,
            old(request).scoped_backend.entries(),
            final(request).scoped_backend.entries(),
            answer_view(r),
        ),
        *final(final(request).scoped_backend.backend) == *final(old(request).scoped_backend.backend),
        final(request).action_id == old(request).action_id,
        final(request).payload == old(request).payload,
        final(request).scoped_backend.scope@ == old(request).scoped_backend.scope@,
{
    let here = KeyPath::from("");
    proof {
        reveal_strlit("");
        reveal_strlit("Signing failed: ");
    }
    assert(here@ =~= Seq::<char>::empty());
    let mut key_bytes: Vec<u8> = Vec::new();
    while key_bytes.len() < 32
        invariant
            key_bytes@.len() <= 32,
            forall|i: int| 0 <= i < key_bytes@.len() ==> key_bytes@[i] == 0u8,
        decreases 32 - key_bytes@.len(),
    {
        key_bytes.push(0u8);
    }
    assert(key_bytes@ =~= zero_key());
    match request.scoped_backend.read(&here, key_bytes.as_mut_slice()) {
        Ok(_) => {},
        Err(e) => {
            return Err(ProviderError::BackendError { source: e });
        },
    }
    assert(key_bytes@ =~= stored_secret(request.scoped_backend.entries(), request.scoped_backend.scope@));
    match sign_payload(request.payload.as_slice(), key_bytes.as_slice()) {
        Ok(signature) => Ok(signature),
        Err(e) => {
            let text = ed25519_error_text(e);
            let mut message = "Signing failed: ".to_string();
            message.append(text.as_str());
            assert(message@ == "Signing failed: "@ + text@);
            Err(ProviderError::from(message))
        },
    }
}

} // verus!
