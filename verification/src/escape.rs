use vstd::prelude::*;
use vstd::string::*;

verus! {

/// The escaped form of a single character: the XML entity for `&`, `<` and
/// `>`, and the character itself otherwise. The ampersand case comes first,
/// so the ampersands inside generated entities are never escaped again.
pub open spec fn escape_char(c: char) -> Seq<char> {
    if c == '&' {
        seq!['&', 'a', 'm', 'p', ';']
    } else if c == '<' {
        seq!['&', 'l', 't', ';']
    } else if c == '>' {
        seq!['&', 'g', 't', ';']
    } else {
        seq![c]
    }
}

/// The escaped form of a text: each character replaced by its escaped form,
/// in order.
pub open spec fn escape_text(s: Seq<char>) -> Seq<char>
    decreases s.len(),
{
    if s.len() == 0 {
        Seq::empty()
    } else {
        escape_char(s[0]) + escape_text(s.drop_first())
    }
}

proof fn lemma_escape_text_snoc(s: Seq<char>, c: char)
    ensures
        escape_text(s.push(c)) == escape_text(s) + escape_char(c),
    decreases s.len(),
{
    if s.len() == 0 {
        assert(s.push(c)[0] == c);
        assert(s.push(c).drop_first() =~= Seq::<char>::empty());
        assert(escape_text(s.push(c)) == escape_char(c) + escape_text(Seq::<char>::empty()));
        assert(escape_char(c) + Seq::<char>::empty() =~= escape_char(c));
        assert(escape_text(s) + escape_char(c) =~= escape_char(c));
    } else {
        assert(s.push(c)[0] == s[0]);
        assert(s.push(c).drop_first() =~= s.drop_first().push(c));
        lemma_escape_text_snoc(s.drop_first(), c);
        assert(escape_text(s.push(c)) == escape_char(s[0]) + (escape_text(s.drop_first())
            + escape_char(c)));
        assert(escape_char(s[0]) + (escape_text(s.drop_first()) + escape_char(c)) =~= (escape_char(
            s[0],
        ) + escape_text(s.drop_first())) + escape_char(c));
    }
}

/// Escaping a text that holds none of `&`, `<`, `>` returns it unchanged;
/// escaping is therefore idempotent on such text.
pub proof fn lemma_escape_clean_identity(s: Seq<char>)
    requires
        forall|i: int| 0 <= i < s.len() ==> s[i] != '&' && s[i] != '<' && s[i] != '>',
    ensures
        escape_text(s) == s,
    decreases s.len(),
{
    if s.len() == 0 {
        assert(escape_text(s) =~= s);
    } else {
        lemma_escape_clean_identity(s.drop_first());
        assert(escape_char(s[0]) =~= seq![s[0]]);
        assert(escape_text(s) =~= s);
    }
}

/// Relies on String::push: appends exactly the given character to the string.
pub assume_specification[ String::push ](s: &mut String, c: char)
    ensures
        final(s)@ == old(s)@ + seq![c],
;

/// Replaces the characters `&`, `<` and `>` by their XML entities, ampersand
/// first, so that entity text the replacement itself produces is kept as is.
pub fn replace_escaped_characters(value: &str) -> (r: String)
    ensures
        r@ == escape_text(value@),
{
    let n = value.unicode_len();
    let mut r = String::new();
    let mut i: usize = 0;
    while i < n
        invariant
            n == value@.len(),
            i <= n,
            r@ == escape_text(value@.take(i as int)),
        decreases n - i,
    {
        let c = value.get_char(i);
        if c == '&' {
            r.append("&amp;");
            proof {
                reveal_strlit("&amp;");
                assert("&amp;"@ =~= escape_char(c));
            }
        } else if c == '<' {
            r.append("&lt;");
            proof {
                reveal_strlit("&lt;");
                assert("&lt;"@ =~= escape_char(c));
            }
        } else if c == '>' {
            r.append("&gt;");
            proof {
                reveal_strlit("&gt;");
                assert("&gt;"@ =~= escape_char(c));
            }
        } else {
            r.push(c);
            proof {
                assert(seq![c] =~= escape_char(c));
            }
        }
        proof {
            assert(value@.take(i + 1 as int) =~= value@.take(i as int).push(value@[i as int]));
            lemma_escape_text_snoc(value@.take(i as int), value@[i as int]);
        }
        i = i + 1;
    }
    proof {
        assert(value@.take(n as int) =~= value@);
    }
    r
}

} // verus!
