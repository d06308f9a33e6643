//! The callback signer: a deterministic tag that binds the callback secret,
//! the bytes of a message and the funds sent with it.
use vstd::prelude::*;
use crate::crypto::{json_string, json_string_of, sha256, sha256_of};
use crate::framing::append_bytes;
use crate::output::Coin;
use crate::text::{open_bracket, open_bracket_bytes, close_bracket, close_bracket_bytes, comma, comma_bytes, denom_open, denom_open_bytes, amount_open, amount_open_bytes, quote_brace, quote_brace_bytes};

verus! {

/// The decimal digits of `n`, most significant first, as ASCII.
pub open spec fn decimal(n: nat) -> Seq<u8>
    decreases n,
{
    if n < 10 {
        seq![(48 + n) as u8]
    } else {
        decimal(n / 10) + seq![(48 + n % 10) as u8]
    }
}

/// The JSON object of one coin: `{"denom":<string>,"amount":"<decimal>"}`.
pub open spec fn coin_json(c: Coin) -> Seq<u8> {
    denom_open() + json_string_of(c.denom@) + amount_open() + decimal(c.amount as nat) + quote_brace()
}

/// The coins' objects, separated by commas.
pub open spec fn coins_items(cs: Seq<Coin>) -> Seq<u8>
    decreases cs.len(),
{
    if cs.len() == 0 {
        Seq::empty()
    } else if cs.len() == 1 {
        coin_json(cs[0])
    } else {
        coins_items(cs.drop_last()) + comma() + coin_json(cs.last())
    }
}

/// The JSON array of a list of coins.
pub open spec fn coins_json(cs: Seq<Coin>) -> Seq<u8> {
    open_bracket() + coins_items(cs) + close_bracket()
}

/// What the callback signature is a digest of.
pub open spec fn callback_sig_input(secret: Seq<u8>, msg: Seq<u8>, funds: Seq<Coin>) -> Seq<u8> {
    secret + msg + coins_json(funds)
}

/// The callback signature of a message and its funds under a secret.
pub open spec fn callback_signature(secret: Seq<u8>, msg: Seq<u8>, funds: Seq<Coin>) -> Seq<u8> {
    sha256_of(callback_sig_input(secret, msg, funds))
}

/// The decimal digits of a 128-bit integer.
pub fn decimal_bytes(n: u128) -> (r: Vec<u8>)
    ensures
        r@ == decimal(n as nat),
    decreases n,
{
    if n < 10 {
        let r = vec![(48 + n) as u8];
        assert(r@ =~= decimal(n as nat));
        r
    } else {
        let mut r = decimal_bytes(n / 10);
        r.push((48 + n % 10) as u8);
        assert(r@ =~= decimal(n as nat));
        r
    }
}

/// The JSON array of a list of coins.
pub fn coins_to_json(funds: &Vec<Coin>) -> (r: Vec<u8>)
    ensures
        r@ == coins_json(funds@),
{
    let mut items: Vec<u8> = Vec::new();
    let mut i: usize = 0;
    while i < funds.len()
        invariant
            i <= funds@.len(),
            items@ == coins_items(funds@.subrange(0, i as int)),
        decreases funds@.len() - i,
    {
        let ghost before = funds@.subrange(0, i as int);
        if i > 0 {
            let c = comma_bytes();
            append_bytes(&mut items, c.as_slice());
        }
        let coin = &funds[i];
        let d = denom_open_bytes();
        append_bytes(&mut items, d.as_slice());
        let q = json_string(coin.denom.as_str());
        append_bytes(&mut items, q.as_slice());
        let a = amount_open_bytes();
        append_bytes(&mut items, a.as_slice());
        let n = decimal_bytes(coin.amount);
        append_bytes(&mut items, n.as_slice());
        let e = quote_brace_bytes();
        append_bytes(&mut items, e.as_slice());
        proof {
            let now = funds@.subrange(0, i + 1);
            assert(now.drop_last() =~= before);
            assert(now.last() == funds@[i as int]);
            if i == 0 {
                assert(items@ =~= coin_json(funds@[0]));
            } else {
                assert(items@ =~= coins_items(before) + comma() + coin_json(now.last()));
            }
        }
        i = i + 1;
    }
    let mut out = open_bracket_bytes();
    append_bytes(&mut out, items.as_slice());
    let c = close_bracket_bytes();
    append_bytes(&mut out, c.as_slice());
    assert(funds@.subrange(0, funds@.len() as int) =~= funds@);
    out
}

/// The callback signature: SHA-256 of the secret, the message bytes and the
/// JSON of the funds, concatenated.
pub fn create_callback_signature(callback_secret: &[u8], msg_to_sign: &[u8], funds_to_send: &Vec<Coin>) -> (r: Vec<u8>)
    ensures
        r@ == callback_signature(callback_secret@, msg_to_sign@, funds_to_send@),
        r@.len() == 32,
{
    let mut bytes: Vec<u8> = Vec::new();
    append_bytes(&mut bytes, callback_secret);
    append_bytes(&mut bytes, msg_to_sign);
    let f = coins_to_json(funds_to_send);
    append_bytes(&mut bytes, f.as_slice());
    sha256(bytes.as_slice())
}

/// The callback signature is a function of its inputs: equal secrets,
/// messages and funds give equal signatures.
pub proof fn lemma_callback_signature_deterministic(
    s1: Seq<u8>,
    m1: Seq<u8>,
    f1: Seq<Coin>,
    s2: Seq<u8>,
    m2: Seq<u8>,
    f2: Seq<Coin>,
)
    requires
        s1 == s2,
        m1 == m2,
        f1 == f2,
    ensures
        callback_signature(s1, m1, f1) == callback_signature(s2, m2, f2),
{
}

/// Under one secret and the same funds, two different
/// messages give two different digest inputs, so the signatures differ
/// unless the digest collides.
pub proof fn lemma_callback_sig_input_distinct_messages(
    secret: Seq<u8>,
    m1: Seq<u8>,
    m2: Seq<u8>,
    funds: Seq<Coin>,
)
    requires
        m1 != m2,
    ensures
        callback_sig_input(secret, m1, funds) != callback_sig_input(secret, m2, funds),
{
    let a = callback_sig_input(secret, m1, funds);
    let b = callback_sig_input(secret, m2, funds);
    if m1.len() != m2.len() {
        assert(a.len() != b.len());
    } else {
        assert(!(m1 =~= m2));
        let k = choose|k: int| 0 <= k < m1.len() && m1[k] != m2[k];
        assert(a[secret.len() + k] == m1[k]);
        assert(b[secret.len() + k] == m2[k]);
    }
}

/// Under two different secrets of one length (the callback secret has a
/// fixed size), the same message and funds give different digest inputs.
pub proof fn lemma_callback_sig_input_distinct_secrets(
    s1: Seq<u8>,
    s2: Seq<u8>,
    msg: Seq<u8>,
    funds: Seq<Coin>,
)
    requires
        s1 != s2,
        s1.len() == s2.len(),
    ensures
        callback_sig_input(s1, msg, funds) != callback_sig_input(s2, msg, funds),
{
    let a = callback_sig_input(s1, msg, funds);
    let b = callback_sig_input(s2, msg, funds);
    assert(!(s1 =~= s2));
    let k = choose|k: int| 0 <= k < s1.len() && s1[k] != s2[k];
    assert(a[k] == s1[k]);
    assert(b[k] == s2[k]);
}

/// Under the same secret and message, different funds give different
/// digest inputs.
pub proof fn lemma_callback_sig_input_distinct_funds_json(
    secret: Seq<u8>,
    msg: Seq<u8>,
    f1: Seq<Coin>,
    f2: Seq<Coin>,
)
    requires
        coins_json(f1) != coins_json(f2),
    ensures
        callback_sig_input(secret, msg, f1) != callback_sig_input(secret, msg, f2),
{
    let a = callback_sig_input(secret, msg, f1);
    let b = callback_sig_input(secret, msg, f2);
    let n = (secret.len() + msg.len()) as int;
    assert(a.subrange(n, a.len() as int) =~= coins_json(f1));
    assert(b.subrange(n, b.len() as int) =~= coins_json(f2));
}

} // verus!
