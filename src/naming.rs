//! Destination names for uploaded parts.
use vstd::prelude::*;
use vstd::arithmetic::div_mod::{lemma_breakdown, lemma_small_mod};

verus! {

/// What `sanitize_filename::sanitize` makes of a client-supplied name.
pub uninterp spec fn sanitized(name: Seq<char>) -> Seq<char>;

/// Lowercase hexadecimal digit for a value below 16.
pub open spec fn hex_char(d: nat) -> char {
    if d == 0 { '0' } else if d == 1 { '1' } else if d == 2 { '2' } else if d == 3 { '3' }
    else if d == 4 { '4' } else if d == 5 { '5' } else if d == 6 { '6' } else if d == 7 { '7' }
    else if d == 8 { '8' } else if d == 9 { '9' } else if d == 10 { 'a' } else if d == 11 { 'b' }
    else if d == 12 { 'c' } else if d == 13 { 'd' } else if d == 14 { 'e' } else { 'f' }
}

/// The last `n` hexadecimal digits of `x`, most significant first.
pub open spec fn hex_digits(x: nat, n: nat) -> Seq<char>
    decreases n,
{
    if n == 0 {
        Seq::empty()
    } else {
        hex_digits(x / 16, (n - 1) as nat).push(hex_char(x % 16))
    }
}

/// The hyphenated text of a 128-bit identifier: 32 lowercase hex digits in
/// groups of 8, 4, 4, 4 and 12.
pub open spec fn hyphenated(x: u128) -> Seq<char> {
    let d = hex_digits(x as nat, 32);
    d.subrange(0, 8) + seq!['-'] + d.subrange(8, 12) + seq!['-'] + d.subrange(12, 16) + seq!['-']
        + d.subrange(16, 20) + seq!['-'] + d.subrange(20, 32)
}

/// A name that is one plain entry of a directory: not empty, no separator,
/// and not one of the special entries `.` and `..`.
pub open spec fn is_plain_component(n: Seq<char>) -> bool {
    &&& n.len() > 0
    &&& forall|i: int| 0 <= i < n.len() ==> n[i] != '/' && n[i] != '\\'
    &&& n != seq!['.']
    &&& n != seq!['.', '.']
}

/// Text of some generated identifier.
pub open spec fn is_generated(n: Seq<char>) -> bool {
    exists|x: u128| n == hyphenated(x)
}

/// `n` is a name that resolution may give for the declared name: the sanitized
/// name when that is not empty, a generated identifier otherwise.
pub open spec fn resolves_to(declared: Option<Seq<char>>, n: Seq<char>) -> bool {
    match declared {
        Some(f) => if sanitized(f).len() > 0 {
            n == sanitized(f)
        } else {
            is_generated(n)
        },
        None => is_generated(n),
    }
}

/// The view of an optional declared name.
pub open spec fn declared_view(declared: &Option<String>) -> Option<Seq<char>> {
    match declared {
        Some(f) => Some(f@),
        None => None,
    }
}

/// The path of entry `n` of directory `root`.
pub open spec fn joined(root: Seq<char>, n: Seq<char>) -> Seq<char> {
    root + seq!['/'] + n
}

/// `p` names an entry directly inside `root`.
pub open spec fn within_root(root: Seq<char>, p: Seq<char>) -> bool {
    &&& p.len() > root.len() + 1
    &&& p.subrange(0, root.len() as int) == root
    &&& p[root.len() as int] == '/'
    &&& is_plain_component(p.subrange(root.len() + 1int, p.len() as int))
}

/// Relies on `sanitize_filename::sanitize` (default options): it removes every
/// `/`, `\`, `?`, `<`, `>`, `:`, `*`, `|`, `"` and control character, replaces a
/// name made only of dots by the empty string, and cuts the result to at most
/// 255 bytes at a character boundary.
#[verifier::external_body]
fn sanitize_name(name: &str) -> (r: String)
    ensures
        r@ == sanitized(name@),
        forall|i: int| 0 <= i < r@.len() ==> r@[i] != '/' && r@[i] != '\\',
        r@ != seq!['.'],
        r@ != seq!['.', '.'],
{
    sanitize_filename::sanitize(name)
}

/// Relies on `uuid::Uuid::new_v4`: a random version-4 identifier, read back as
/// its 128-bit value.
#[verifier::external_body]
fn random_id() -> (r: u128) {
    uuid::Uuid::new_v4().as_u128()
}

/// Relies on `uuid::Uuid::from_u128` and uuid's `Display`: the hyphenated
/// lowercase form of the value's big-endian bytes.
#[verifier::external_body]
fn id_text(x: u128) -> (r: String)
    ensures
        r@ == hyphenated(x),
{
    uuid::Uuid::from_u128(x).to_string()
}

proof fn lemma_hex_digits_len(x: nat, n: nat)
    ensures
        hex_digits(x, n).len() == n,
    decreases n,
{
    if n > 0 {
        lemma_hex_digits_len(x / 16, (n - 1) as nat);
    }
}

proof fn lemma_hex_digits_chars(x: nat, n: nat)
    ensures
        forall|i: int| 0 <= i < n ==> #[trigger] hex_digits(x, n)[i] != '/'
            && hex_digits(x, n)[i] != '\\',
    decreases n,
{
    lemma_hex_digits_len(x, n);
    if n > 0 {
        lemma_hex_digits_len(x / 16, (n - 1) as nat);
        lemma_hex_digits_chars(x / 16, (n - 1) as nat);
        assert forall|i: int| 0 <= i < n implies #[trigger] hex_digits(x, n)[i] != '/'
            && hex_digits(x, n)[i] != '\\' by {
            if i < n - 1 {
                assert(hex_digits(x, n)[i] == hex_digits(x / 16, (n - 1) as nat)[i]);
            }
        }
    }
}

/// Generated identifiers are plain directory entries of 36 characters.
pub proof fn lemma_hyphenated_plain(x: u128)
    ensures
        hyphenated(x).len() == 36,
        is_plain_component(hyphenated(x)),
{
    let d = hex_digits(x as nat, 32);
    lemma_hex_digits_len(x as nat, 32);
    lemma_hex_digits_chars(x as nat, 32);
    let h = hyphenated(x);
    assert(h.len() == 36);
    assert forall|i: int| 0 <= i < h.len() implies h[i] != '/' && h[i] != '\\' by {
        if i < 8 {
            assert(h[i] == d[i]);
        } else if i == 8 {
        } else if i < 13 {
            assert(h[i] == d[i - 1]);
        } else if i == 13 {
        } else if i < 18 {
            assert(h[i] == d[i - 2]);
        } else if i == 18 {
        } else if i < 23 {
            assert(h[i] == d[i - 3]);
        } else if i == 23 {
        } else {
            assert(h[i] == d[i - 4]);
        }
    }
    assert(h != seq!['.']) by {
        assert(h.len() != seq!['.'].len());
    }
    assert(h != seq!['.', '.']) by {
        assert(h.len() != seq!['.', '.'].len());
    }
}

/// Sixteen to the power `n`.
pub open spec fn pow16(n: nat) -> nat
    decreases n,
{
    if n == 0 {
        1
    } else {
        16 * pow16((n - 1) as nat)
    }
}

proof fn lemma_pow16_positive(n: nat)
    ensures
        pow16(n) > 0,
    decreases n,
{
    if n > 0 {
        lemma_pow16_positive((n - 1) as nat);
    }
}

proof fn lemma_hex_digits_injective(x: nat, y: nat, n: nat)
    requires
        hex_digits(x, n) == hex_digits(y, n),
    ensures
        x % pow16(n) == y % pow16(n),
    decreases n,
{
    if n > 0 {
        let m = (n - 1) as nat;
        let dx = hex_digits(x, n);
        let dy = hex_digits(y, n);
        lemma_hex_digits_len(x / 16, m);
        lemma_hex_digits_len(y / 16, m);
        assert(dx[m as int] == hex_char(x % 16));
        assert(dy[m as int] == hex_char(y % 16));
        assert(x % 16 == y % 16);
        assert(dx.drop_last() =~= hex_digits(x / 16, m));
        assert(dy.drop_last() =~= hex_digits(y / 16, m));
        lemma_hex_digits_injective(x / 16, y / 16, m);
        lemma_pow16_positive(m);
        lemma_breakdown(x as int, 16, pow16(m) as int);
        lemma_breakdown(y as int, 16, pow16(m) as int);
    }
}

proof fn lemma_ungrouped(x: u128)
    ensures
        ({
            let h = hyphenated(x);
            hex_digits(x as nat, 32) == h.subrange(0, 8) + h.subrange(9, 13) + h.subrange(14, 18)
                + h.subrange(19, 23) + h.subrange(24, 36)
        }),
{
    let d = hex_digits(x as nat, 32);
    let h = hyphenated(x);
    lemma_hex_digits_len(x as nat, 32);
    assert(d =~= h.subrange(0, 8) + h.subrange(9, 13) + h.subrange(14, 18) + h.subrange(19, 23)
        + h.subrange(24, 36));
}

/// Distinct identifiers have distinct texts, so two generated names collide
/// only when the random source repeats a 128-bit value.
pub proof fn lemma_hyphenated_injective(x: u128, y: u128)
    requires
        x != y,
    ensures
        hyphenated(x) != hyphenated(y),
{
    if hyphenated(x) == hyphenated(y) {
        lemma_ungrouped(x);
        lemma_ungrouped(y);
        lemma_hex_digits_injective(x as nat, y as nat, 32);
        reveal_with_fuel(pow16, 33);
        assert(pow16(32) == 0x1_0000_0000_0000_0000_0000_0000_0000_0000nat);
        lemma_small_mod(x as nat, pow16(32));
        lemma_small_mod(y as nat, pow16(32));
    }
}

/// A path built from the root directory and a plain entry name stays inside
/// the root directory: it is the root, one separator, and that one entry.
pub proof fn lemma_joined_within_root(root: Seq<char>, n: Seq<char>)
    requires
        is_plain_component(n),
    ensures
        within_root(root, joined(root, n)),
{
    let p = joined(root, n);
    assert(p.subrange(0, root.len() as int) =~= root);
    assert(p.subrange(root.len() + 1int, p.len() as int) =~= n);
}

/// Chooses the on-disk name for a part: the sanitized declared name, or a fresh
/// random identifier when no name was declared or nothing of it survives
/// sanitizing.
pub fn resolve_filename(declared: &Option<String>) -> (r: String)
    ensures
        resolves_to(declared_view(declared), r@),
        is_plain_component(r@),
{
    let clean = match declared {
        Some(f) => {
            let s = sanitize_name(f.as_str());
            if s.as_str().is_empty() {
                None
            } else {
                Some(s)
            }
        },
        None => None,
    };
    match clean {
        Some(s) => s,
        None => {
            let x = random_id();
            let t = id_text(x);
            proof {
                lemma_hyphenated_plain(x);
            }
            t
        },
    }
}

} // verus!
