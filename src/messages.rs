use vstd::prelude::*;

verus! {

/// `s` with every occurrence of the non-empty `pat` replaced by `with`,
/// occurrences taken from left to right without overlap.
pub open spec fn replace_all(s: Seq<char>, pat: Seq<char>, with: Seq<char>) -> Seq<char>
    decreases s.len(),
{
    if s.len() == 0 || pat.len() == 0 {
        s
    } else if pat.len() <= s.len() && s.take(pat.len() as int) == pat {
        with + replace_all(s.skip(pat.len() as int), pat, with)
    } else {
        seq![s[0]] + replace_all(s.skip(1), pat, with)
    }
}

/// `pat` occurs in `s` at position `i`.
pub open spec fn occurs_at(s: Seq<char>, pat: Seq<char>, i: int) -> bool {
    0 <= i && i + pat.len() <= s.len() && s.subrange(i, i + pat.len()) == pat
}

/// `pat` occurs somewhere in `s`.
pub open spec fn occurs_in(s: Seq<char>, pat: Seq<char>) -> bool {
    exists|i: int| occurs_at(s, pat, i)
}

/// The decimal digit for `d < 10`.
pub open spec fn digit_char(d: nat) -> char {
    if d == 0 { '0' } else if d == 1 { '1' } else if d == 2 { '2' } else if d == 3 { '3' }
    else if d == 4 { '4' } else if d == 5 { '5' } else if d == 6 { '6' } else if d == 7 { '7' }
    else if d == 8 { '8' } else { '9' }
}

/// The decimal notation of `n`, without sign or leading zeros.
pub open spec fn decimal(n: nat) -> Seq<char>
    decreases n,
{
    if n < 10 {
        seq![digit_char(n)]
    } else {
        decimal(n / 10).push(digit_char(n % 10))
    }
}

/// The placeholder that a message template holds for the community's name.
pub open spec fn server_name_mark() -> Seq<char> {
    seq!['S', 'E', 'R', 'V', 'E', 'R', '_', 'N', 'A', 'M', 'E']
}

/// The placeholder that a message template holds for a setting's name.
pub open spec fn env_var_mark() -> Seq<char> {
    seq!['E', 'N', 'V', '_', 'V', 'A', 'R']
}

/// The placeholder that a message template holds for a member's id.
pub open spec fn user_id_mark() -> Seq<char> {
    seq!['U', 'S', 'E', 'R', 'I', 'D']
}

/// Relies on `str::chars` collected into a `Vec`: the characters of `s` in order.
#[verifier::external_body]
fn chars_of(s: &str) -> (r: Vec<char>)
    ensures
        r@ == s@,
{
    s.chars().collect()
}

/// Relies on `String::from_iter` over `char`s: the string of the characters of `v`.
#[verifier::external_body]
fn string_of(v: &Vec<char>) -> (r: String)
    ensures
        r@ == v@,
{
    String::from_iter(v.iter())
}

/// Whether `pat` stands in `v` at position `i`.
fn matches_at(v: &Vec<char>, pat: &Vec<char>, i: usize) -> (r: bool)
    requires
        i <= v@.len(),
    ensures
        r == occurs_at(v@, pat@, i as int),
{
    if pat.len() > v.len() - i {
        return false;
    }
    let n: usize = v.len();
    let mut j: usize = 0;
    while j < pat.len()
        invariant
            n == v@.len(),
            i <= v@.len(),
            i + pat@.len() <= v@.len(),
            j <= pat@.len(),
            forall|k: int| 0 <= k < j ==> v@[i + k] == pat@[k],
        decreases pat@.len() - j,
    {
        if v[i + j] != pat[j] {
            assert(v@.subrange(i as int, i + pat@.len())[j as int] != pat@[j as int]);
            return false;
        }
        j = j + 1;
    }
    assert(v@.subrange(i as int, i + pat@.len()) =~= pat@);
    true
}

proof fn lemma_replace_step(s: Seq<char>, pat: Seq<char>, with: Seq<char>, i: int)
    requires
        0 <= i < s.len(),
        pat.len() > 0,
    ensures
        occurs_at(s, pat, i) ==> replace_all(s.skip(i), pat, with) == with + replace_all(
            s.skip(i + pat.len()),
            pat,
            with,
        ),
        !occurs_at(s, pat, i) ==> replace_all(s.skip(i), pat, with) == seq![s[i]] + replace_all(
            s.skip(i + 1),
            pat,
            with,
        ),
{
    let t = s.skip(i);
    if i + pat.len() <= s.len() {
        assert(t.take(pat.len() as int) =~= s.subrange(i, i + pat.len()));
        assert(t.skip(pat.len() as int) =~= s.skip(i + pat.len()));
    }
    assert(t.skip(1) =~= s.skip(i + 1));
}

/// The characters of `v` with every occurrence of `pat` replaced by `with`.
fn replace_chars(v: &Vec<char>, pat: &Vec<char>, with: &Vec<char>) -> (r: Vec<char>)
    requires
        pat@.len() > 0,
    ensures
        r@ == replace_all(v@, pat@, with@),
{
    let mut out: Vec<char> = Vec::new();
    let mut i: usize = 0;
    assert(v@.skip(0) =~= v@);
    assert(out@ + replace_all(v@, pat@, with@) =~= replace_all(v@, pat@, with@));
    while i < v.len()
        invariant
            pat@.len() > 0,
            i <= v@.len(),
            out@ + replace_all(v@.skip(i as int), pat@, with@) == replace_all(v@, pat@, with@),
        decreases v@.len() - i,
    {
        proof {
            lemma_replace_step(v@, pat@, with@, i as int);
        }
        if matches_at(v, pat, i) {
            let ghost before = out@;
            let mut k: usize = 0;
            while k < with.len()
                invariant
                    k <= with@.len(),
                    out@ == before + with@.take(k as int),
                decreases with@.len() - k,
            {
                out.push(with[k]);
                k = k + 1;
                assert(out@ =~= before + with@.take(k as int));
            }
            assert(with@.take(with@.len() as int) =~= with@);
            assert(out@ + replace_all(v@.skip(i + pat@.len()), pat@, with@) =~= before + (with@
                + replace_all(v@.skip(i + pat@.len()), pat@, with@)));
            i = i + pat.len();
        } else {
            let ghost before = out@;
            out.push(v[i]);
            assert(out@ + replace_all(v@.skip(i + 1), pat@, with@) =~= before + (seq![v@[i as int]]
                + replace_all(v@.skip(i + 1), pat@, with@)));
            i = i + 1;
        }
    }
    assert(v@.skip(i as int) =~= Seq::<char>::empty());
    assert(out@ + Seq::<char>::empty() =~= out@);
    out
}

/// Whether `pat` occurs in `v`.
fn contains_chars(v: &Vec<char>, pat: &Vec<char>) -> (r: bool)
    ensures
        r == occurs_in(v@, pat@),
{
    let mut i: usize = 0;
    while i < v.len()
        invariant
            i <= v@.len(),
            forall|k: int| 0 <= k < i ==> !occurs_at(v@, pat@, k),
        decreases v@.len() - i,
    {
        if matches_at(v, pat, i) {
            return true;
        }
        i = i + 1;
    }
    if matches_at(v, pat, i) {
        return true;
    }
    assert forall|k: int| !occurs_at(v@, pat@, k) by {
        if 0 <= k <= i {
        } else if k > i {
            assert(k + pat@.len() > v@.len());
        }
    }
    false
}

/// Appends the decimal notation of `n` to `out`.
fn push_decimal(out: &mut Vec<char>, n: u64)
    ensures
        final(out)@ == old(out)@ + decimal(n as nat),
    decreases n,
{
    if n >= 10 {
        push_decimal(out, n / 10);
    }
    let d = n % 10;
    let c = if d == 0 { '0' } else if d == 1 { '1' } else if d == 2 { '2' } else if d == 3 { '3' }
        else if d == 4 { '4' } else if d == 5 { '5' } else if d == 6 { '6' } else if d == 7 { '7' }
        else if d == 8 { '8' } else { '9' };
    out.push(c);
    assert(final(out)@ =~= old(out)@ + decimal(n as nat));
}

/// The prompt or notice `template` with the community's name put in place
/// of its `SERVER_NAME` placeholders.
pub fn get_server_message(template: &str, server_name: &str) -> (r: String)
    ensures
        r@ == replace_all(template@, server_name_mark(), server_name@),
{
    let mark: Vec<char> = vec!['S', 'E', 'R', 'V', 'E', 'R', '_', 'N', 'A', 'M', 'E'];
    let filled = replace_chars(&chars_of(template), &mark, &chars_of(server_name));
    string_of(&filled)
}

/// The missing-setting error `template` with `env_name` put in place of its
/// `ENV_VAR` placeholders; `None` when it holds no such placeholder.
pub fn get_env_error_message(template: &str, env_name: &str) -> (r: Option<String>)
    ensures
        r.is_some() == occurs_in(template@, env_var_mark()),
        r.is_some() ==> r.unwrap()@ == replace_all(template@, env_var_mark(), env_name@),
{
    let mark: Vec<char> = vec!['E', 'N', 'V', '_', 'V', 'A', 'R'];
    let text = chars_of(template);
    if !contains_chars(&text, &mark) {
        return None;
    }
    let filled = replace_chars(&text, &mark, &chars_of(env_name));
    Some(string_of(&filled))
}

/// The closed-direct-messages notice `template` with the member's id in
/// decimal put in place of its `USERID` placeholders; `None` when it holds
/// no such placeholder.
pub fn get_user_send_error(template: &str, user_id: u64) -> (r: Option<String>)
    ensures
        r.is_some() == occurs_in(template@, user_id_mark()),
        r.is_some() ==> r.unwrap()@ == replace_all(template@, user_id_mark(), decimal(user_id as nat)),
{
    let mark: Vec<char> = vec!['U', 'S', 'E', 'R', 'I', 'D'];
    let text = chars_of(template);
    if !contains_chars(&text, &mark) {
        return None;
    }
    let mut id: Vec<char> = Vec::new();
    push_decimal(&mut id, user_id);
    assert(id@ =~= decimal(user_id as nat));
    let filled = replace_chars(&text, &mark, &id);
    Some(string_of(&filled))
}

} // verus!
