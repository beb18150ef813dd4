//! Which functions the `pre_action_hook` attribute accepts: one argument, bound
//! to a plain name, and a byte vector as the result.
use vstd::prelude::*;
use vstd::utf8::encode_utf8;

verus! {

/// Why a function cannot be a pre-action hook.
#[derive(Debug, PartialEq, Eq, Structural)]
pub enum HookSignatureError {
    ArgumentCount,
    SelfArgument,
    ArgumentPattern,
    ReturnType,
}

/// The text of each refusal.
pub open spec fn refusal_text(e: HookSignatureError) -> Seq<char> {
    match e {
        HookSignatureError::ArgumentCount =>
            "#[pre_action_hook] function must take exactly one argument of type ContextProviderGuestContext"@,
        HookSignatureError::SelfArgument =>
            "#[pre_action_hook] function must take ContextProviderGuestContext, not self"@,
        HookSignatureError::ArgumentPattern => "#[pre_action_hook] function argument must be a simple identifier"@,
        HookSignatureError::ReturnType => "#[pre_action_hook] function must return Vec<u8>"@,
    }
}

impl HookSignatureError {
    /// The text of the refusal, as the compiler reports it.
    pub fn message(&self) -> (r: String)
        ensures
            r@ == refusal_text(*self),
    {
        match self {
            HookSignatureError::ArgumentCount => {
                "#[pre_action_hook] function must take exactly one argument of type ContextProviderGuestContext".to_string()
            },
            HookSignatureError::SelfArgument => {
                "#[pre_action_hook] function must take ContextProviderGuestContext, not self".to_string()
            },
            HookSignatureError::ArgumentPattern => {
                "#[pre_action_hook] function argument must be a simple identifier".to_string()
            },
            HookSignatureError::ReturnType => "#[pre_action_hook] function must return Vec<u8>".to_string(),
        }
    }
}

/// `needle` occurs in `hay` as a run of consecutive items.
pub open spec fn occurs(needle: Seq<u8>, hay: Seq<u8>) -> bool {
    exists|i: int| 0 <= i && i + needle.len() <= hay.len() && #[trigger] hay.subrange(i, i + needle.len()) == needle
}

/// Whether `needle` stands in `hay` from position `i` on.
fn occurs_at(hay: &[u8], needle: &[u8], i: usize) -> (r: bool)
    requires
        i + needle@.len() <= hay@.len(),
    ensures
        r == (hay@.subrange(i as int, i + needle@.len()) == needle@),
{
    let hay_len = hay.len();
    let mut j: usize = 0;
    while j < needle.len()
        invariant
            hay_len == hay@.len(),
            j <= needle@.len(),
            i + needle@.len() <= hay@.len(),
            forall|k: int| 0 <= k < j ==> hay@[i + k] == needle@[k],
        decreases needle@.len() - j,
    {
        if hay[i + j] != needle[j] {
            assert(hay@.subrange(i as int, i + needle@.len())[j as int] != needle@[j as int]);
            return false;
        }
        j = j + 1;
    }
    assert(hay@.subrange(i as int, i + needle@.len()) =~= needle@);
    true
}

/// Whether the text `needle` occurs in the text `hay`, compared as UTF-8.
pub fn text_mentions(hay: &str, needle: &str) -> (r: bool)
    ensures
        r == occurs(encode_utf8(needle@), encode_utf8(hay@)),
{
    let h = hay.as_bytes();
    let n = needle.as_bytes();
    assert(h@ == encode_utf8(hay@));
    assert(n@ == encode_utf8(needle@));
    if n.len() == 0 {
        assert(h@.subrange(0, 0int + n@.len()) =~= n@);
        assert(occurs(n@, h@));
        return true;
    }
    if n.len() > h.len() {
        return false;
    }
    let mut i: usize = 0;
    while i <= h.len() - n.len()
        invariant
            h@ == encode_utf8(hay@),
            n@ == encode_utf8(needle@),
            1 <= n@.len() <= h@.len(),
            i <= h@.len() - n@.len() + 1,
            forall|k: int| 0 <= k < i ==> #[trigger] h@.subrange(k, k + n@.len()) != n@,
        decreases h@.len() - i,
    {
        if occurs_at(h, n, i) {
            assert(h@.subrange(i as int, i + n@.len()) == n@);
            assert(occurs(n@, h@));
            return true;
        }
        i = i + 1;
    }
    false
}

/// What the attribute decides of a function with `argument_count` arguments,
/// the first being `self` or bound to a plain name as the flags say, and the
/// result type written as `result_type` (`None` when it returns nothing): the
/// first check that fails, in the order of the variants, refuses it.
pub open spec fn hook_signature_verdict(
    argument_count: nat,
    first_is_self: bool,
    first_is_identifier: bool,
    result_type: Option<Seq<char>>,
) -> Result<(), HookSignatureError> {
    if argument_count != 1 {
        Err(HookSignatureError::ArgumentCount)
    } else if first_is_self {
        Err(HookSignatureError::SelfArgument)
    } else if !first_is_identifier {
        Err(HookSignatureError::ArgumentPattern)
    } else if !(result_type matches Some(t) && occurs(encode_utf8("Vec"@), encode_utf8(t)) && occurs(
        encode_utf8("u8"@),
        encode_utf8(t),
    )) {
        Err(HookSignatureError::ReturnType)
    } else {
        Ok(())
    }
}

/// `needle` stands somewhere in `hay`, as a run of consecutive bytes.
pub open spec fn stands_in(needle: Seq<u8>, hay: Seq<u8>) -> bool {
    exists|i: int| 0 <= i && i + needle.len() <= hay.len() && #[trigger] hay.subrange(i, i + needle.len()) == needle
}

/// A function with one argument, bound to a plain name, whose result type's
/// text holds "Vec" and "u8" anywhere, is accepted as a hook.
pub proof fn lemma_byte_vector_hook_accepted(result_type: Seq<char>)
    requires
        stands_in(encode_utf8("Vec"@), encode_utf8(result_type)),
        stands_in(encode_utf8("u8"@), encode_utf8(result_type)),
    ensures
        hook_signature_verdict(1, false, true, Some(result_type)) == Ok::<(), HookSignatureError>(()),
{
}

/// A hook is accepted only with one argument, not `self`, bound to a plain
/// name, and a result type whose text holds "Vec" and "u8".
pub proof fn lemma_accepted_hook_shape(
    argument_count: nat,
    first_is_self: bool,
    first_is_identifier: bool,
    result_type: Option<Seq<char>>,
)
    requires
        hook_signature_verdict(argument_count, first_is_self, first_is_identifier, result_type) is Ok,
    ensures
        argument_count == 1,
        !first_is_self,
        first_is_identifier,
        result_type matches Some(t) && stands_in(encode_utf8("Vec"@), encode_utf8(t)) && stands_in(
            encode_utf8("u8"@),
            encode_utf8(t),
        ),
{
}

/// Checks that a function can be a pre-action hook.
pub fn check_hook_signature(
    argument_count: usize,
    first_is_self: bool,
    first_is_identifier: bool,
    result_type: Option<&str>,
) -> (r: Result<(), HookSignatureError>)
    ensures
        r == hook_signature_verdict(
            argument_count as nat,
            first_is_self,
            first_is_identifier,
            match result_type {
                Some(t) => Some(t@),
                None => None,
            },
        ),
        argument_count == 1 && !first_is_self && first_is_identifier && (result_type matches Some(t)
            && stands_in(encode_utf8("Vec"@), encode_utf8(t@)) && stands_in(encode_utf8("u8"@), encode_utf8(t@)))
            <==> r is Ok,
{
    if argument_count != 1 {
        return Err(HookSignatureError::ArgumentCount);
    }
    if first_is_self {
        return Err(HookSignatureError::SelfArgument);
    }
    if !first_is_identifier {
        return Err(HookSignatureError::ArgumentPattern);
    }
    let names_bytes = match result_type {
        Some(t) => text_mentions(t, "Vec") && text_mentions(t, "u8"),
        None => false,
    };
    if !names_bytes {
        return Err(HookSignatureError::ReturnType);
    }
    Ok(())
}

} // verus!
