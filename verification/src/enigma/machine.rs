//! The cipher engine: a fixed, ordered stack of rotor permutation tables
//! through which a letter's alphabet position runs forward and then back
//! in reverse order. The stack never changes after construction — there is
//! no rotor stepping, no ring setting and no plugboard step.

use vstd::prelude::*;

verus! {

/// One rotor's wiring: entry `i` is the output position for input
/// position `i`, over the alphabet positions `a = 0` … `z = 25`.
pub type Rotor = [usize; 26];

/// A valid rotor table: 26 entries, every entry an alphabet position, and
/// no two entries alike — a bijection on the positions 0 to 25.
pub open spec fn is_rotor_table(t: Seq<usize>) -> bool {
    &&& t.len() == 26
    &&& forall|i: int| 0 <= i < 26 ==> t[i] < 26
    &&& forall|i: int, j: int| 0 <= i < j < 26 ==> t[i] != t[j]
}

/// Whether `c` is a lowercase ASCII letter.
pub open spec fn is_lower_letter(c: char) -> bool {
    97 <= c as u32 <= 122
}

/// The alphabet position of a lowercase letter (`a = 0` … `z = 25`).
pub open spec fn letter_index(c: char) -> usize {
    (c as u32 - 97) as usize
}

/// The lowercase letter at an alphabet position below 26.
pub open spec fn index_letter(i: usize) -> char {
    (i + 97) as char
}

/// ASCII uppercase letters map to their lowercase form; every other
/// character is unchanged.
pub open spec fn spec_lower(c: char) -> char {
    if 65 <= c as u32 <= 90 {
        (c as u32 + 32) as char
    } else {
        c
    }
}

/// One rotor application: a position inside the table's domain is mapped
/// through the table; a position outside it is left unchanged.
pub open spec fn rotor_step(t: Seq<usize>, idx: usize) -> usize {
    if idx < t.len() {
        t[idx as int]
    } else {
        idx
    }
}

/// The forward pass: the running position goes through the rotors in
/// construction order, first rotor first.
pub open spec fn forward_pass(rotors: Seq<Seq<usize>>, idx: usize) -> usize
    decreases rotors.len(),
{
    if rotors.len() == 0 {
        idx
    } else {
        rotor_step(rotors.last(), forward_pass(rotors.drop_last(), idx))
    }
}

/// The return pass: the running position goes through the same rotors in
/// reverse order, last rotor first, again by each rotor's forward mapping
/// (not its inverse).
pub open spec fn return_pass(rotors: Seq<Seq<usize>>, idx: usize) -> usize
    decreases rotors.len(),
{
    if rotors.len() == 0 {
        idx
    } else {
        rotor_step(rotors.first(), return_pass(rotors.drop_first(), idx))
    }
}

/// A position run forward through the whole rotor stack and then back.
pub open spec fn spec_encrypt_index(rotors: Seq<Seq<usize>>, idx: usize) -> usize {
    return_pass(rotors, forward_pass(rotors, idx))
}

/// Substitution of an already-lowercased character: a lowercase letter is
/// run through the rotor stack and the resulting position becomes the
/// output letter; any other character passes through unchanged. Were the
/// final position to fall outside the alphabet — possible only for rotor
/// stacks that are no bijections, which this crate never builds — the
/// character would also pass through unchanged.
pub open spec fn spec_substitute(rotors: Seq<Seq<usize>>, c: char) -> char {
    if is_lower_letter(c) {
        let out = spec_encrypt_index(rotors, letter_index(c));
        if out < 26 {
            index_letter(out)
        } else {
            c
        }
    } else {
        c
    }
}

/// What encrypting one character returns: the input is lowercased, then
/// substituted through the rotor stack. Output is always lowercase;
/// non-letters pass through unchanged.
pub open spec fn spec_encrypt_char(rotors: Seq<Seq<usize>>, c: char) -> char {
    spec_substitute(rotors, spec_lower(c))
}

/// What encrypting a message returns: every character encrypted
/// independently, in order — no state is carried between characters.
pub open spec fn spec_encrypt_msg(rotors: Seq<Seq<usize>>, s: Seq<char>) -> Seq<char> {
    s.map(|i: int, c: char| spec_encrypt_char(rotors, c))
}

/// Relies on `String::push` of std: it appends the given character to the
/// end of the string.
pub assume_specification[ String::push ](s: &mut String, ch: char)
    ensures
        final(s)@ == old(s)@.push(ch),
;

/// The cipher engine: an ordered stack of rotor tables, fixed at
/// construction and read-only afterwards.
pub struct EnigmaMachine {
    rotors: Vec<Rotor>,
}

impl EnigmaMachine {
    /// Every rotor held by an engine is a bijection on the alphabet
    /// positions.
    #[verifier::type_invariant]
    spec fn wf(self) -> bool {
        forall|k: int|
            0 <= k < self.rotors@.len() ==> is_rotor_table(#[trigger] self.rotors@[k]@)
    }

    /// The rotor tables of the engine, in construction order.
    pub closed spec fn rotors_view(self) -> Seq<Seq<usize>> {
        self.rotors@.map_values(|r: Rotor| r@)
    }

    /// An engine with no rotors: it only lowercases.
    pub(crate) fn empty() -> (r: Self)
        ensures
            r.rotors_view() == Seq::<Seq<usize>>::empty(),
    {
        let m = EnigmaMachine { rotors: Vec::new() };
        proof {
            assert(m.rotors_view() =~= Seq::<Seq<usize>>::empty());
        }
        m
    }

    /// Appends one rotor table to the stack.
    pub(crate) fn push_rotor(self, rotor: Rotor) -> (r: Self)
        requires
            is_rotor_table(rotor@),
        ensures
            r.rotors_view() == self.rotors_view().push(rotor@),
    {
        proof {
            use_type_invariant(&self);
        }
        let EnigmaMachine { mut rotors } = self;
        rotors.push(rotor);
        let m = EnigmaMachine { rotors };
        proof {
            assert(m.rotors_view() =~= self.rotors_view().push(rotor@));
        }
        m
    }

    /// Encrypts one character: it is lowercased, a letter is substituted
    /// through the rotor stack, and any other character passes through
    /// unchanged.
    pub fn encrypt_char(&self, input_ch: char) -> (r: char)
        ensures
            r == spec_encrypt_char(self.rotors_view(), input_ch),
    {
        self.rotor_passthroughs(to_lower(input_ch))
    }

    /// Runs an already-lowercased character's position forward through the
    /// rotor stack and back through it in reverse order.
    fn rotor_passthroughs(&self, input_ch: char) -> (r: char)
        ensures
            r == spec_substitute(self.rotors_view(), input_ch),
    {
        let u = input_ch as u32;
        if u < 97 || 122 < u {
            return input_ch;
        }
        proof {
            use_type_invariant(&*self);
        }
        let ghost rv = self.rotors_view();
        let ghost start = letter_index(input_ch);
        let mut idx: usize = (u - 97) as usize;
        let n = self.rotors.len();

        for k in 0..n
            invariant
                n == self.rotors@.len(),
                rv == self.rotors_view(),
                forall|t: int| 0 <= t < rv.len() ==> is_rotor_table(#[trigger] rv[t]),
                idx < 26,
                idx == forward_pass(rv.take(k as int), start),
        {
            let rotor = &self.rotors[k];
            proof {
                assert(rotor@ == rv[k as int]);
                assert(rv.take(k + 1).drop_last() =~= rv.take(k as int));
                assert(rv.take(k + 1).last() == rv[k as int]);
            }
            idx = rotor[idx];
        }
        proof {
            assert(rv.take(n as int) =~= rv);
        }
        let ghost fwd = forward_pass(rv, start);

        for k in 0..n
            invariant
                n == self.rotors@.len(),
                rv == self.rotors_view(),
                forall|t: int| 0 <= t < rv.len() ==> is_rotor_table(#[trigger] rv[t]),
                idx < 26,
                idx == return_pass(rv.skip((n - k) as int), fwd),
        {
            let rotor = &self.rotors[n - 1 - k];
            proof {
                let m = n - 1 - k;
                assert(rotor@ == rv[m as int]);
                assert(rv.skip(m as int).drop_first() =~= rv.skip(m + 1));
                assert(rv.skip(m as int).first() == rv[m as int]);
            }
            idx = rotor[idx];
        }
        proof {
            assert(rv.skip(0) =~= rv);
        }
        ((idx + 97) as u8) as char
    }

    /// Encrypts a whole message: every character independently, in order.
    pub fn encrypt_msg(&self, input: String) -> (r: String)
        ensures
            r@ == spec_encrypt_msg(self.rotors_view(), input@),
    {
        let mut out = String::new();
        let s = input.as_str();
        let n = s.unicode_len();
        for i in 0..n
            invariant
                n == s@.len(),
                s@ == input@,
                out@ == spec_encrypt_msg(self.rotors_view(), input@.take(i as int)),
        {
            let c = s.get_char(i);
            let e = self.encrypt_char(c);
            out.push(e);
            proof {
                assert(out@ =~= spec_encrypt_msg(self.rotors_view(), input@.take(i + 1)));
            }
        }
        proof {
            assert(input@.take(n as int) =~= input@);
        }
        out
    }
}

/// Law: with no rotors the engine only lowercases — every character comes
/// back as its lowercase form.
pub proof fn lemma_no_rotors_char(rotors: Seq<Seq<usize>>, c: char)
    requires
        rotors.len() == 0,
    ensures
        spec_encrypt_char(rotors, c) == spec_lower(c),
{
    let lc = spec_lower(c);
    if is_lower_letter(lc) {
        vstd::utf8::char_u32_cast(lc, lc as u32);
        assert(index_letter(letter_index(lc)) == lc);
    }
}

/// Law: with no rotors a message comes back lowercased characterwise.
pub proof fn lemma_no_rotors_msg(rotors: Seq<Seq<usize>>, s: Seq<char>)
    requires
        rotors.len() == 0,
    ensures
        spec_encrypt_msg(rotors, s) == s.map(|i: int, c: char| spec_lower(c)),
{
    assert forall|i: int| 0 <= i < s.len() implies spec_encrypt_char(rotors, s[i]) == spec_lower(
        s[i],
    ) by {
        lemma_no_rotors_char(rotors, s[i]);
    }
    assert(spec_encrypt_msg(rotors, s) =~= s.map(|i: int, c: char| spec_lower(c)));
}

/// Law: with a single rotor, the forward pass and the return pass each
/// apply the rotor's forward mapping once — a lowercase letter at
/// position `p` comes out as the letter at position `t[t[p]]`, not back
/// at `p`.
pub proof fn lemma_single_rotor_char(t: Seq<usize>, c: char)
    requires
        is_rotor_table(t),
        is_lower_letter(c),
    ensures
        spec_encrypt_char(seq![t], c) == index_letter(t[t[letter_index(c) as int] as int]),
{
    let rotors = seq![t];
    let p = letter_index(c);
    let empty = Seq::<Seq<usize>>::empty();
    assert(spec_lower(c) == c);
    assert(rotors.last() == t);
    assert(rotors.first() == t);
    assert(rotors.drop_last() =~= empty);
    assert(rotors.drop_first() =~= empty);
    assert(forward_pass(empty, p) == p);
    assert(forward_pass(rotors, p) == t[p as int]);
    let q = t[p as int] as usize;
    assert(return_pass(empty, q) == q);
    assert(return_pass(rotors, q) == t[q as int]);
}

/// Law: message encryption carries no state across characters —
/// encrypting a concatenation yields the concatenation of the two
/// encryptions.
pub proof fn lemma_msg_concat(rotors: Seq<Seq<usize>>, s1: Seq<char>, s2: Seq<char>)
    ensures
        spec_encrypt_msg(rotors, s1 + s2) == spec_encrypt_msg(rotors, s1) + spec_encrypt_msg(
            rotors,
            s2,
        ),
{
    assert(spec_encrypt_msg(rotors, s1 + s2) =~= spec_encrypt_msg(rotors, s1) + spec_encrypt_msg(
        rotors,
        s2,
    ));
}

/// Law: case does not matter — a character and its lowercase form encrypt
/// to the same character.
pub proof fn lemma_case_insensitive(rotors: Seq<Seq<usize>>, c: char)
    ensures
        spec_encrypt_char(rotors, spec_lower(c)) == spec_encrypt_char(rotors, c),
{
    assert(spec_lower(spec_lower(c)) == spec_lower(c));
}

/// Lowercases one character: ASCII uppercase letters map to their
/// lowercase form, everything else is unchanged.
fn to_lower(c: char) -> (r: char)
    ensures
        r == spec_lower(c),
{
    let u = c as u32;
    if 65 <= u && u <= 90 {
        ((u + 32) as u8) as char
    } else {
        c
    }
}

} // verus!
