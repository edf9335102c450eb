//! Authentication by bearer token.

use axum::http::HeaderMap;
use vstd::prelude::*;

use crate::http::{
    ascii_text, authorization, failure, header_fields, header_text,
    law_header_reads_as_its_bytes, lower_case, unauthorized, visible_ascii, Failure,
};
use crate::state::{optional_text, AppState};
use crate::text::{lemma_bytes_determine_text, strip_prefix};

verus! {

/// The bits in which the first `n` bytes of `a` and `b` differ, all of them joined into one byte.
pub open spec fn joined_difference(a: Seq<u8>, b: Seq<u8>, n: int) -> u8
    decreases n,
{
    if n <= 0 {
        0
    } else {
        joined_difference(a, b, n - 1) | (a[n - 1] ^ b[n - 1])
    }
}

/// No bit differs if and only if no byte does.
proof fn lemma_no_difference(a: Seq<u8>, b: Seq<u8>, n: int)
    requires
        0 <= n <= a.len(),
        a.len() == b.len(),
    ensures
        joined_difference(a, b, n) == 0 <==> a.take(n) == b.take(n),
    decreases n,
{
    if n > 0 {
        let before = joined_difference(a, b, n - 1);
        let x = a[n - 1];
        let y = b[n - 1];
        assert((before | (x ^ y)) == 0 <==> before == 0 && x == y) by (bit_vector);
        lemma_no_difference(a, b, n - 1);
        assert(a.take(n) =~= a.take(n - 1).push(x));
        assert(b.take(n) =~= b.take(n - 1).push(y));
        if a.take(n) == b.take(n) {
            assert(a.take(n).drop_last() =~= a.take(n - 1));
            assert(b.take(n).drop_last() =~= b.take(n - 1));
            assert(a.take(n)[n - 1] == x);
            assert(b.take(n)[n - 1] == y);
        }
    } else {
        assert(a.take(n) =~= b.take(n));
    }
}

/// The bits in which `a` and `b` differ, joined into one byte.
///
/// Every byte is looked at, whatever the bytes before it were: the result holds what each of them
/// adds. The contract says nothing of the time that a call takes.
pub fn byte_difference(a: &[u8], b: &[u8]) -> (difference: u8)
    requires
        a@.len() == b@.len(),
    ensures
        difference == joined_difference(a@, b@, a@.len() as int),
{
    let mut difference: u8 = 0;
    let mut i: usize = 0;
    while i < a.len()
        invariant
            i <= a.len(),
            a.len() == b.len(),
            difference == joined_difference(a@, b@, i as int),
        decreases a.len() - i,
    {
        difference = difference | (a[i] ^ b[i]);
        i = i + 1;
    }
    difference
}

/// Whether two texts are equal.
///
/// Texts of the same length are compared by `byte_difference`, so that the time a comparison takes
/// does not tell how much of a guess was right. The contract is on the result; it says nothing of
/// the time.
pub fn constant_time_eq(a: &str, b: &str) -> (res: bool)
    ensures
        res == (a@ == b@),
{
    proof {
        lemma_bytes_determine_text(a@, b@);
    }
    let a = a.as_bytes();
    let b = b.as_bytes();
    if a.len() != b.len() {
        return false;
    }
    proof {
        lemma_no_difference(a@, b@, a@.len() as int);
        assert(a@.take(a@.len() as int) =~= a@);
        assert(b@.take(b@.len() as int) =~= b@);
    }
    byte_difference(a, b) == 0
}

/// The token that an `Authorization` header of that text presents: what follows `Bearer `;
/// nothing where there is no such header, or where it says something else.
pub open spec fn token_in(authorization: Option<Seq<char>>) -> Seq<char> {
    match authorization {
        Some(text) => if "Bearer "@.is_prefix_of(text) {
            text.skip("Bearer "@.len() as int)
        } else {
            Seq::empty()
        },
        None => Seq::empty(),
    }
}

/// Whether a server with that key lets in a request that presents that token.
pub open spec fn token_admitted(api_key: Option<Seq<char>>, token: Seq<char>) -> bool {
    match api_key {
        Some(key) => token == key,
        None => true,
    }
}

/// Whether a server with that key lets in a request with these headers.
pub open spec fn authorized(
    api_key: Option<Seq<char>>,
    fields: Map<Seq<char>, Seq<Seq<u8>>>,
) -> bool {
    token_admitted(api_key, token_in(header_text(fields, "Authorization"@)))
}

/// The refusal of a request whose `Authorization` header, if it has one, has that text; `None`
/// where it presents the server's key, or where the server has no key.
pub fn check_token(api_key: &Option<String>, authorization: Option<&str>) -> (refusal: Option<
    Failure,
>)
    ensures
        refusal is None <==> token_admitted(
            optional_text(*api_key),
            token_in(
                match authorization {
                    Some(text) => Some(text@),
                    None => None,
                },
            ),
        ),
        refusal is Some ==> refusal->0@ == unauthorized(),
{
    let key = match api_key {
        Some(key) => key,
        None => return None,
    };
    proof {
        reveal_strlit("");
        assert(""@ =~= Seq::<char>::empty());
    }
    let provided = match authorization {
        Some(text) => match strip_prefix(text, "Bearer ") {
            Some(token) => token,
            None => "",
        },
        None => "",
    };
    if !constant_time_eq(provided, key.as_str()) {
        Some(failure(401, "invalid or missing API key"))
    } else {
        None
    }
}

/// The refusal of a request that does not present the server's key; `None` where it does, or
/// where the server has no key.
pub fn check_auth<C>(state: &AppState<C>, headers: &HeaderMap) -> (refusal: Option<Failure>)
    ensures
        refusal is None <==> authorized(state@.api_key, header_fields(*headers)),
        refusal is Some ==> refusal->0@ == unauthorized(),
{
    check_token(&state.api_key, authorization(headers))
}

/// A server without a key lets every request in.
pub proof fn law_no_key_lets_all_in(fields: Map<Seq<char>, Seq<Seq<u8>>>)
    ensures
        authorized(None, fields),
{
}

/// A server with a key lets a request in if and only if its `Authorization` header is `Bearer `
/// followed by that key, and nothing else.
pub proof fn law_admitted_by_exact_token(key: Seq<char>, fields: Map<Seq<char>, Seq<Seq<u8>>>)
    requires
        key.len() > 0,
    ensures
        authorized(Some(key), fields) <==> header_text(fields, "Authorization"@) == Some(
            "Bearer "@ + key,
        ),
{
    match header_text(fields, "Authorization"@) {
        Some(text) => {
            if "Bearer "@.is_prefix_of(text) {
                assert(text =~= "Bearer "@ + text.skip("Bearer "@.len() as int));
            }
            if text == "Bearer "@ + key {
                assert("Bearer "@.is_prefix_of(text));
                assert(text.skip("Bearer "@.len() as int) =~= key);
            }
        },
        None => {},
    }
}

/// A server with a key refuses every request that gives no `Authorization` header.
pub proof fn law_missing_header_is_refused(key: Seq<char>, fields: Map<Seq<char>, Seq<Seq<u8>>>)
    requires
        key.len() > 0,
        !fields.contains_key("authorization"@),
    ensures
        !authorized(Some(key), fields),
{
    reveal_strlit("Authorization");
    reveal_strlit("authorization");
    assert(lower_case("Authorization"@) =~= "authorization"@);
}

/// A key that holds anything but visible ASCII lets no request in, for no header can carry it.
pub proof fn law_unsendable_key_admits_none(
    key: Seq<char>,
    at: int,
    fields: Map<Seq<char>, Seq<Seq<u8>>>,
)
    requires
        0 <= at < key.len(),
        !(32 <= key[at] as u32 && (key[at] as u32) < 127 || key[at] as u32 == 9),
    ensures
        !authorized(Some(key), fields),
{
    law_admitted_by_exact_token(key, fields);
    let name = lower_case("Authorization"@);
    if authorized(Some(key), fields) {
        let bytes = fields[name][0];
        let place = "Bearer "@.len() + at;
        assert(ascii_text(bytes)[place] == key[at]);
        assert(visible_ascii(bytes[place]));
    }
}

/// A bit of the joined difference is set if and only if some two bytes differ in it.
pub proof fn law_every_byte_enters_the_difference(a: Seq<u8>, b: Seq<u8>, n: int, bits: u8)
    requires
        0 <= n <= a.len(),
        a.len() == b.len(),
    ensures
        joined_difference(a, b, n) & bits != 0 <==> exists|i: int|
            0 <= i < n && (#[trigger] a[i] ^ #[trigger] b[i]) & bits != 0,
    decreases n,
{
    if n <= 0 {
        assert(0u8 & bits == 0) by (bit_vector);
    } else {
        law_every_byte_enters_the_difference(a, b, n - 1, bits);
        let before = joined_difference(a, b, n - 1);
        let x = a[n - 1];
        let y = b[n - 1];
        assert((before | (x ^ y)) & bits != 0 <==> before & bits != 0 || (x ^ y) & bits != 0)
            by (bit_vector);
        if before & bits != 0 {
            let i = choose|i: int|
                0 <= i < n - 1 && (#[trigger] a[i] ^ #[trigger] b[i]) & bits != 0;
            assert(0 <= i < n && (a[i] ^ b[i]) & bits != 0);
        }
    }
}

/// `Bearer ` and a token present that token, whatever it is; a header that presents any token but
/// the empty one is of that form; and no header presents nothing.
pub proof fn law_token_follows_bearer(token: Seq<char>, text: Seq<char>)
    ensures
        token_in(Some("Bearer "@ + token)) == token,
        token_in(Some(text)).len() > 0 ==> text == "Bearer "@ + token_in(Some(text)),
        token_in(None).len() == 0,
{
    assert("Bearer "@.is_prefix_of("Bearer "@ + token));
    assert(("Bearer "@ + token).skip("Bearer "@.len() as int) =~= token);
    if "Bearer "@.is_prefix_of(text) {
        assert(text =~= "Bearer "@ + text.skip("Bearer "@.len() as int));
    }
}

/// A token is admitted if and only if it is the key, where there is one.
pub proof fn law_only_the_key_is_admitted(key: Seq<char>, token: Seq<char>)
    ensures
        token_admitted(Some(key), token) <==> token == key,
        token_admitted(None, token),
{
}

/// On the wire: a request whose `authorization` field is the bytes of `Bearer ` and then those of
/// the key, all visible ASCII and of whatever length, is let in; one whose field is `Bearer ` and
/// anything else is not; and without such a field only the empty key lets in.
pub proof fn law_key_on_the_wire_decides(key: Seq<char>, fields: Map<Seq<char>, Seq<Seq<u8>>>)
    ensures
        ({
            let wire = fields["authorization"@][0];
            let bears = {
                &&& fields.contains_key("authorization"@)
                &&& forall|i: int|
                    0 <= i < wire.len() ==> 32 <= #[trigger] wire[i] <= 126 || wire[i] == 9
                &&& wire.len() >= 7
                &&& wire[0] == 66 && wire[1] == 101 && wire[2] == 97 && wire[3] == 114
                &&& wire[4] == 101 && wire[5] == 114 && wire[6] == 32
            };
            authorized(Some(key), fields) <==> if bears {
                &&& wire.len() == 7 + key.len()
                &&& forall|i: int|
                    0 <= i < key.len() ==> #[trigger] key[i] as int == wire[7 + i] as int
            } else {
                key.len() == 0
            }
        }),
{
    reveal_strlit("Authorization");
    reveal_strlit("authorization");
    reveal_strlit("Bearer ");
    law_header_reads_as_its_bytes(fields, "Authorization"@, "authorization"@);
    let wire = fields["authorization"@][0];
    let found = header_text(fields, "Authorization"@);
    let token = token_in(found);
    match found {
        Some(text) => {
            assert forall|i: int| 0 <= i < text.len() implies #[trigger] wire[i] as int
                == text[i] as int by {
                assert(text[i] as int == wire[i] as int);
            }
            if wire.len() >= 7 && wire[0] == 66 && wire[1] == 101 && wire[2] == 97 && wire[3]
                == 114 && wire[4] == 101 && wire[5] == 114 && wire[6] == 32 {
                assert(text.take(7) =~= "Bearer "@);
                assert("Bearer "@.is_prefix_of(text)) by {
                    assert(text.take(7) == "Bearer "@);
                    assert forall|i: int| 0 <= i < 7 implies "Bearer "@[i] == #[trigger] text[i] by {
                        assert(text.take(7)[i] == text[i]);
                    }
                }
                assert(token == text.skip(7));
                if wire.len() == 7 + key.len() && (forall|i: int|
                    0 <= i < key.len() ==> #[trigger] key[i] as int == wire[7 + i] as int) {
                    assert forall|i: int| 0 <= i < key.len() implies #[trigger] key[i]
                        == token[i] by {
                        assert(token[i] == text[7 + i]);
                        assert(text[7 + i] as int == wire[7 + i] as int);
                    }
                    assert(token =~= key);
                }
                if token == key {
                    assert forall|i: int| 0 <= i < key.len() implies #[trigger] key[i] as int
                        == wire[7 + i] as int by {
                        assert(key[i] == text[7 + i]);
                        assert(text[7 + i] as int == wire[7 + i] as int);
                    }
                }
            } else {
                if "Bearer "@.is_prefix_of(text) {
                    assert("Bearer "@ == text.take(7));
                    assert forall|i: int| 0 <= i < 7 implies wire[i] as int
                        == #[trigger] "Bearer "@[i] as int by {
                        assert(text.take(7)[i] == text[i]);
                        assert(text[i] as int == wire[i] as int);
                    }
                    assert("Bearer "@[0] == 'B' && "Bearer "@[1] == 'e' && "Bearer "@[2] == 'a'
                        && "Bearer "@[3] == 'r' && "Bearer "@[4] == 'e' && "Bearer "@[5] == 'r'
                        && "Bearer "@[6] == ' ');
                }
                if key.len() == 0 {
                    assert(key =~= Seq::<char>::empty());
                }
            }
        },
        None => {
            if key.len() == 0 {
                assert(key =~= Seq::<char>::empty());
            }
        },
    }
}

} // verus!
