//! Options of the weather client, and masking of the API key in text.
use vstd::prelude::*;
use vstd::string::StringSliceAdditionalSpecFns;
use vstd::utf8::{decode_utf8, encode_scalar, encode_utf8, encode_utf8_decode_utf8, is_char_boundary};

use crate::models::UnitSystem;
use crate::text::push_char;

verus! {

/// Options were refused.
#[derive(Clone, Debug)]
pub struct InvalidOptionsError {
    pub message: String,
}

impl InvalidOptionsError {
    /// The message, as shown to a user.
    pub fn text(&self) -> (r: String)
        ensures
            r@ == "invalid client config: "@ + self.message@,
    {
        let mut s = String::from_str("invalid client config: ");
        s.append(self.message.as_str());
        s
    }
}

/// How many bytes of a non-empty key stay visible: at most three, and never
/// the whole key.
pub open spec fn mask_cut(s: Seq<char>) -> int {
    let n = encode_utf8(s).len() as int;
    if n - 1 < 3 {
        n - 1
    } else {
        3
    }
}

/// Whether a key can be masked: the cut falls between two characters.
pub open spec fn maskable(s: Seq<char>) -> bool {
    s.len() == 0 || is_char_boundary(encode_utf8(s), mask_cut(s))
}

/// The masked form of a key: the visible leading bytes, then four stars;
/// the empty key stays empty.
pub open spec fn masked(s: Seq<char>) -> Seq<char> {
    if s.len() == 0 {
        s
    } else {
        decode_utf8(encode_utf8(s).subrange(0, mask_cut(s))) + seq!['*', '*', '*', '*']
    }
}

/// `s` with every occurrence of `pat`, found from the left and not
/// overlapping, replaced by `rep`. An empty pattern changes nothing.
pub open spec fn replaced(s: Seq<char>, pat: Seq<char>, rep: Seq<char>) -> Seq<char>
    decreases s.len(),
{
    if pat.len() == 0 || s.len() < pat.len() {
        s
    } else if s.subrange(0, pat.len() as int) == pat {
        rep + replaced(s.subrange(pat.len() as int, s.len() as int), pat, rep)
    } else {
        seq![s[0]] + replaced(s.drop_first(), pat, rep)
    }
}

/// Whether `s` can be masked: empty, or cut between two characters.
pub fn is_maskable(s: &str) -> (r: bool)
    ensures
        r == maskable(s@),
{
    if s.is_empty() {
        return true;
    }
    let n = s.as_bytes().len();
    proof {
        assert(s.spec_bytes() == encode_utf8(s@));
        assert(encode_utf8(s@) == encode_scalar(s@[0] as u32) + encode_utf8(s@.drop_first()));
    }
    let cut = if n - 1 < 3 {
        n - 1
    } else {
        3
    };
    s.is_char_boundary(cut)
}

/// Masks all but the first (at most three) bytes of `s` with `****`.
pub fn mask(s: &str) -> (r: String)
    requires
        maskable(s@),
    ensures
        r@ == masked(s@),
{
    if s.is_empty() {
        return String::new();
    }
    let n = s.as_bytes().len();
    proof {
        assert(s.spec_bytes() == encode_utf8(s@));
        assert(encode_utf8(s@) == encode_scalar(s@[0] as u32) + encode_utf8(s@.drop_first()));
    }
    let cut = if n - 1 < 3 {
        n - 1
    } else {
        3
    };
    let (head, _tail) = s.split_at(cut);
    let mut r = head.to_owned();
    r.append("****");
    proof {
        encode_utf8_decode_utf8(head@);
        assert(head@ == decode_utf8(encode_utf8(s@).subrange(0, mask_cut(s@))));
        reveal_strlit("****");
        assert(r@ =~= masked(s@));
    }
    r
}

/// Whether `pat` occurs in `s` at position `i`.
fn occurs_at(s: &str, n: usize, i: usize, pat: &str, m: usize) -> (r: bool)
    requires
        n == s@.len(),
        m == pat@.len(),
        i + m <= n,
    ensures
        r == (s@.subrange(i as int, i + m) == pat@),
{
    let mut j: usize = 0;
    while j < m
        invariant
            n == s@.len(),
            m == pat@.len(),
            i + m <= n,
            j <= m,
            s@.subrange(i as int, i + j) == pat@.subrange(0, j as int),
        decreases m - j,
    {
        if s.get_char(i + j) != pat.get_char(j) {
            proof {
                assert(s@.subrange(i as int, i + m)[j as int] != pat@[j as int]);
            }
            return false;
        }
        j = j + 1;
        proof {
            assert(s@.subrange(i as int, i + j) =~= pat@.subrange(0, j as int));
        }
    }
    proof {
        assert(pat@.subrange(0, m as int) =~= pat@);
    }
    true
}

proof fn lemma_replaced_suffix(s: Seq<char>, i: int, pat: Seq<char>, rep: Seq<char>)
    requires
        pat.len() > 0,
        0 <= i < s.len(),
        s.len() - i < pat.len() || s.subrange(i, i + pat.len()) != pat,
    ensures
        replaced(s.subrange(i, s.len() as int), pat, rep) == seq![s[i]] + replaced(
            s.subrange(i + 1, s.len() as int),
            pat,
            rep,
        ),
{
    let t = s.subrange(i, s.len() as int);
    assert(t.drop_first() =~= s.subrange(i + 1, s.len() as int));
    if t.len() < pat.len() {
        assert(replaced(s.subrange(i + 1, s.len() as int), pat, rep) == s.subrange(i + 1, s.len() as int));
        assert(t =~= seq![s[i]] + s.subrange(i + 1, s.len() as int));
    } else {
        assert(t.subrange(0, pat.len() as int) =~= s.subrange(i, i + pat.len()));
    }
}

/// Replaces every occurrence of a non-empty `pat` in `s` by `rep`.
fn replace_all(s: &str, pat: &str, rep: &str) -> (r: String)
    requires
        pat@.len() > 0,
    ensures
        r@ == replaced(s@, pat@, rep@),
{
    let n = s.unicode_len();
    let m = pat.unicode_len();
    let mut out = String::new();
    let mut i: usize = 0;
    proof {
        assert(s@.subrange(0, n as int) =~= s@);
    }
    while i < n
        invariant
            n == s@.len(),
            m == pat@.len(),
            m > 0,
            i <= n,
            out@ + replaced(s@.subrange(i as int, n as int), pat@, rep@) == replaced(
                s@,
                pat@,
                rep@,
            ),
        decreases n - i,
    {
        let ghost rest = s@.subrange(i as int, n as int);
        if m <= n - i && occurs_at(s, n, i, pat, m) {
            proof {
                assert(rest.subrange(0, m as int) =~= s@.subrange(i as int, i + m));
                assert(rest.subrange(m as int, rest.len() as int) =~= s@.subrange(i + m, n as int));
            }
            out.append(rep);
            i = i + m;
            proof {
                assert(out@ + replaced(s@.subrange(i as int, n as int), pat@, rep@) =~= replaced(
                    s@,
                    pat@,
                    rep@,
                ));
            }
        } else {
            let c = s.get_char(i);
            proof {
                lemma_replaced_suffix(s@, i as int, pat@, rep@);
            }
            push_char(&mut out, c);
            i = i + 1;
            proof {
                assert(out@ + replaced(s@.subrange(i as int, n as int), pat@, rep@) =~= replaced(
                    s@,
                    pat@,
                    rep@,
                ));
            }
        }
    }
    proof {
        assert(s@.subrange(n as int, n as int) =~= Seq::<char>::empty());
        assert(out@ =~= replaced(s@, pat@, rep@));
    }
    out
}

/// Options of the weather client.
#[derive(Clone)]
pub struct ClientOptions {
    /// The key that every call carries.
    pub api_key: String,
    /// The language of descriptions; passed on unchecked.
    pub language: String,
    /// The units in which magnitudes come back.
    pub units: UnitSystem,
}

impl ClientOptions {
    /// Defaults: the key from the environment (`api_key_var`, the value of
    /// `API_KEY` if it is set), language "en", metric units.
    pub fn default(api_key_var: Option<String>) -> (r: ClientOptions)
        ensures
            r.api_key@ == (match api_key_var {
                Some(k) => k@,
                None => Seq::<char>::empty(),
            }),
            r.language@ == "en"@,
            r.units == UnitSystem::Metric,
    {
        ClientOptions {
            api_key: Self::default_api_key(api_key_var),
            language: Self::default_language(),
            units: Self::default_units(),
        }
    }

    /// The key from the environment, or the empty key.
    pub fn default_api_key(api_key_var: Option<String>) -> (r: String)
        ensures
            r@ == (match api_key_var {
                Some(k) => k@,
                None => Seq::<char>::empty(),
            }),
    {
        match api_key_var {
            Some(k) => k,
            None => String::new(),
        }
    }

    /// "en".
    pub fn default_language() -> (r: String)
        ensures
            r@ == "en"@,
    {
        String::from_str("en")
    }

    /// Metric.
    pub fn default_units() -> (r: UnitSystem)
        ensures
            r == UnitSystem::Metric,
    {
        UnitSystem::Metric
    }

    /// The API key with all but its first characters masked.
    pub fn masked_api_key(&self) -> (r: String)
        requires
            maskable(self.api_key@),
        ensures
            r@ == masked(self.api_key@),
    {
        mask(self.api_key.as_str())
    }

    /// Refuses options without an API key.
    pub fn validate(&self) -> (r: Result<(), InvalidOptionsError>)
        ensures
            r is Ok <==> self.api_key@.len() > 0,
            r is Err ==> r->Err_0.message@ == "api_key must be non-blank"@,
    {
        if self.api_key.as_str().is_empty() {
            return Err(InvalidOptionsError { message: String::from_str("api_key must be non-blank") });
        }
        Ok(())
    }

    /// `any_string` with every occurrence of the API key masked.
    pub fn mask_api_key_if_present(&self, any_string: &str) -> (r: String)
        requires
            maskable(self.api_key@),
        ensures
            r@ == replaced(any_string@, self.api_key@, masked(self.api_key@)),
    {
        if self.api_key.as_str().is_empty() {
            return any_string.to_owned();
        }
        let m = self.masked_api_key();
        replace_all(any_string, self.api_key.as_str(), m.as_str())
    }

    /// The options as shown in logs, with the key masked.
    pub fn debug_text(&self) -> (r: String)
        requires
            maskable(self.api_key@),
        ensures
            r@ == "Config { api_key: \""@ + masked(self.api_key@) + "\", language: \""@
                + self.language@ + "\", units: "@ + self.units.name_spec()@ + " }"@,
    {
        let mut s = String::from_str("Config { api_key: \"");
        s.append(mask(self.api_key.as_str()).as_str());
        s.append("\", language: \"");
        s.append(self.language.as_str());
        s.append("\", units: ");
        s.append(self.units.name());
        s.append(" }");
        s
    }
}

} // verus!
