//! Construction of cipher engines from the named historical rotor wirings.

use vstd::prelude::*;

use crate::enigma::machine::{is_rotor_table, EnigmaMachine, Rotor};

pub mod machine;

verus! {

/// The position table of the historical Rotor I (Enigma I, 1930) wiring.
pub open spec fn rotor_i_table() -> Seq<usize> {
    seq![4usize, 10, 12, 5, 11, 6, 3, 16, 21, 25, 13, 19, 14, 22, 24, 7, 23, 20, 18, 15, 0, 8, 1, 17, 2, 9]
}

/// The position table of the historical Rotor II (Enigma I, 1930) wiring.
pub open spec fn rotor_ii_table() -> Seq<usize> {
    seq![0usize, 9, 3, 10, 18, 8, 17, 20, 23, 1, 11, 7, 22, 19, 12, 2, 16, 6, 25, 13, 15, 24, 5, 21, 14, 4]
}

/// The position table of the historical Rotor III (Enigma I, 1930) wiring.
pub open spec fn rotor_iii_table() -> Seq<usize> {
    seq![1usize, 3, 5, 7, 9, 11, 2, 15, 17, 19, 23, 21, 25, 13, 24, 4, 8, 22, 6, 0, 10, 12, 20, 18, 16, 14]
}

/// The position table of the historical Rotor IV (M3 Army, 1938) wiring.
pub open spec fn rotor_iv_table() -> Seq<usize> {
    seq![4usize, 18, 14, 21, 15, 25, 9, 0, 24, 16, 20, 8, 17, 7, 23, 11, 13, 5, 19, 6, 10, 3, 2, 12, 22, 1]
}

/// The position table of the historical Rotor V (M3 Army, 1938) wiring.
pub open spec fn rotor_v_table() -> Seq<usize> {
    seq![21usize, 25, 1, 17, 6, 8, 19, 24, 20, 15, 18, 3, 13, 7, 11, 23, 0, 22, 12, 9, 16, 14, 5, 4, 2, 10]
}

/// The position table of the historical Rotor VI (M3 and M4 Naval, 1939) wiring.
pub open spec fn rotor_vi_table() -> Seq<usize> {
    seq![9usize, 15, 6, 21, 14, 20, 12, 5, 24, 16, 1, 4, 13, 7, 25, 17, 3, 10, 0, 18, 23, 11, 8, 2, 19, 22]
}

/// The position table of the historical Rotor VII (M3 and M4 Naval, 1939) wiring.
pub open spec fn rotor_vii_table() -> Seq<usize> {
    seq![13usize, 25, 9, 7, 6, 17, 2, 23, 12, 24, 18, 22, 1, 14, 20, 5, 0, 8, 21, 11, 15, 4, 10, 16, 3, 19]
}

/// The position table of the historical Rotor VIII (M3 and M4 Naval, 1939) wiring.
pub open spec fn rotor_viii_table() -> Seq<usize> {
    seq![5usize, 10, 16, 7, 19, 11, 23, 14, 2, 1, 9, 18, 15, 3, 25, 17, 0, 12, 4, 22, 13, 8, 20, 24, 6, 21]
}

/// Whether position `v` occurs among the table's entries.
pub open spec fn table_hits(t: Seq<usize>, v: usize) -> bool {
    exists|i: int| 0 <= i < 26 && t[i] == v
}

/// Every alphabet position below 26 occurs among the table's entries.
pub open spec fn rotor_surjective(t: Seq<usize>) -> bool {
    forall|v: usize| v < 26 ==> #[trigger] table_hits(t, v)
}

proof fn lemma_rotor_i_props()
    ensures
        is_rotor_table(rotor_i_table()),
        rotor_surjective(rotor_i_table()),
{
    let t = rotor_i_table();
    assert(t[0] == 4);
    assert(t[1] == 10);
    assert(t[2] == 12);
    assert(t[3] == 5);
    assert(t[4] == 11);
    assert(t[5] == 6);
    assert(t[6] == 3);
    assert(t[7] == 16);
    assert(t[8] == 21);
    assert(t[9] == 25);
    assert(t[10] == 13);
    assert(t[11] == 19);
    assert(t[12] == 14);
    assert(t[13] == 22);
    assert(t[14] == 24);
    assert(t[15] == 7);
    assert(t[16] == 23);
    assert(t[17] == 20);
    assert(t[18] == 18);
    assert(t[19] == 15);
    assert(t[20] == 0);
    assert(t[21] == 8);
    assert(t[22] == 1);
    assert(t[23] == 17);
    assert(t[24] == 2);
    assert(t[25] == 9);
    assert(is_rotor_table(t));
    assert(rotor_surjective(t));
}

proof fn lemma_rotor_ii_props()
    ensures
        is_rotor_table(rotor_ii_table()),
        rotor_surjective(rotor_ii_table()),
{
    let t = rotor_ii_table();
    assert(t[0] == 0);
    assert(t[1] == 9);
    assert(t[2] == 3);
    assert(t[3] == 10);
    assert(t[4] == 18);
    assert(t[5] == 8);
    assert(t[6] == 17);
    assert(t[7] == 20);
    assert(t[8] == 23);
    assert(t[9] == 1);
    assert(t[10] == 11);
    assert(t[11] == 7);
    assert(t[12] == 22);
    assert(t[13] == 19);
    assert(t[14] == 12);
    assert(t[15] == 2);
    assert(t[16] == 16);
    assert(t[17] == 6);
    assert(t[18] == 25);
    assert(t[19] == 13);
    assert(t[20] == 15);
    assert(t[21] == 24);
    assert(t[22] == 5);
    assert(t[23] == 21);
    assert(t[24] == 14);
    assert(t[25] == 4);
    assert(is_rotor_table(t));
    assert(rotor_surjective(t));
}

proof fn lemma_rotor_iii_props()
    ensures
        is_rotor_table(rotor_iii_table()),
        rotor_surjective(rotor_iii_table()),
{
    let t = rotor_iii_table();
    assert(t[0] == 1);
    assert(t[1] == 3);
    assert(t[2] == 5);
    assert(t[3] == 7);
    assert(t[4] == 9);
    assert(t[5] == 11);
    assert(t[6] == 2);
    assert(t[7] == 15);
    assert(t[8] == 17);
    assert(t[9] == 19);
    assert(t[10] == 23);
    assert(t[11] == 21);
    assert(t[12] == 25);
    assert(t[13] == 13);
    assert(t[14] == 24);
    assert(t[15] == 4);
    assert(t[16] == 8);
    assert(t[17] == 22);
    assert(t[18] == 6);
    assert(t[19] == 0);
    assert(t[20] == 10);
    assert(t[21] == 12);
    assert(t[22] == 20);
    assert(t[23] == 18);
    assert(t[24] == 16);
    assert(t[25] == 14);
    assert(is_rotor_table(t));
    assert(rotor_surjective(t));
}

proof fn lemma_rotor_iv_props()
    ensures
        is_rotor_table(rotor_iv_table()),
        rotor_surjective(rotor_iv_table()),
{
    let t = rotor_iv_table();
    assert(t[0] == 4);
    assert(t[1] == 18);
    assert(t[2] == 14);
    assert(t[3] == 21);
    assert(t[4] == 15);
    assert(t[5] == 25);
    assert(t[6] == 9);
    assert(t[7] == 0);
    assert(t[8] == 24);
    assert(t[9] == 16);
    assert(t[10] == 20);
    assert(t[11] == 8);
    assert(t[12] == 17);
    assert(t[13] == 7);
    assert(t[14] == 23);
    assert(t[15] == 11);
    assert(t[16] == 13);
    assert(t[17] == 5);
    assert(t[18] == 19);
    assert(t[19] == 6);
    assert(t[20] == 10);
    assert(t[21] == 3);
    assert(t[22] == 2);
    assert(t[23] == 12);
    assert(t[24] == 22);
    assert(t[25] == 1);
    assert(is_rotor_table(t));
    assert(rotor_surjective(t));
}

proof fn lemma_rotor_v_props()
    ensures
        is_rotor_table(rotor_v_table()),
        rotor_surjective(rotor_v_table()),
{
    let t = rotor_v_table();
    assert(t[0] == 21);
    assert(t[1] == 25);
    assert(t[2] == 1);
    assert(t[3] == 17);
    assert(t[4] == 6);
    assert(t[5] == 8);
    assert(t[6] == 19);
    assert(t[7] == 24);
    assert(t[8] == 20);
    assert(t[9] == 15);
    assert(t[10] == 18);
    assert(t[11] == 3);
    assert(t[12] == 13);
    assert(t[13] == 7);
    assert(t[14] == 11);
    assert(t[15] == 23);
    assert(t[16] == 0);
    assert(t[17] == 22);
    assert(t[18] == 12);
    assert(t[19] == 9);
    assert(t[20] == 16);
    assert(t[21] == 14);
    assert(t[22] == 5);
    assert(t[23] == 4);
    assert(t[24] == 2);
    assert(t[25] == 10);
    assert(is_rotor_table(t));
    assert(rotor_surjective(t));
}

proof fn lemma_rotor_vi_props()
    ensures
        is_rotor_table(rotor_vi_table()),
        rotor_surjective(rotor_vi_table()),
{
    let t = rotor_vi_table();
    assert(t[0] == 9);
    assert(t[1] == 15);
    assert(t[2] == 6);
    assert(t[3] == 21);
    assert(t[4] == 14);
    assert(t[5] == 20);
    assert(t[6] == 12);
    assert(t[7] == 5);
    assert(t[8] == 24);
    assert(t[9] == 16);
    assert(t[10] == 1);
    assert(t[11] == 4);
    assert(t[12] == 13);
    assert(t[13] == 7);
    assert(t[14] == 25);
    assert(t[15] == 17);
    assert(t[16] == 3);
    assert(t[17] == 10);
    assert(t[18] == 0);
    assert(t[19] == 18);
    assert(t[20] == 23);
    assert(t[21] == 11);
    assert(t[22] == 8);
    assert(t[23] == 2);
    assert(t[24] == 19);
    assert(t[25] == 22);
    assert(is_rotor_table(t));
    assert(rotor_surjective(t));
}

proof fn lemma_rotor_vii_props()
    ensures
        is_rotor_table(rotor_vii_table()),
        rotor_surjective(rotor_vii_table()),
{
    let t = rotor_vii_table();
    assert(t[0] == 13);
    assert(t[1] == 25);
    assert(t[2] == 9);
    assert(t[3] == 7);
    assert(t[4] == 6);
    assert(t[5] == 17);
    assert(t[6] == 2);
    assert(t[7] == 23);
    assert(t[8] == 12);
    assert(t[9] == 24);
    assert(t[10] == 18);
    assert(t[11] == 22);
    assert(t[12] == 1);
    assert(t[13] == 14);
    assert(t[14] == 20);
    assert(t[15] == 5);
    assert(t[16] == 0);
    assert(t[17] == 8);
    assert(t[18] == 21);
    assert(t[19] == 11);
    assert(t[20] == 15);
    assert(t[21] == 4);
    assert(t[22] == 10);
    assert(t[23] == 16);
    assert(t[24] == 3);
    assert(t[25] == 19);
    assert(is_rotor_table(t));
    assert(rotor_surjective(t));
}

proof fn lemma_rotor_viii_props()
    ensures
        is_rotor_table(rotor_viii_table()),
        rotor_surjective(rotor_viii_table()),
{
    let t = rotor_viii_table();
    assert(t[0] == 5);
    assert(t[1] == 10);
    assert(t[2] == 16);
    assert(t[3] == 7);
    assert(t[4] == 19);
    assert(t[5] == 11);
    assert(t[6] == 23);
    assert(t[7] == 14);
    assert(t[8] == 2);
    assert(t[9] == 1);
    assert(t[10] == 9);
    assert(t[11] == 18);
    assert(t[12] == 15);
    assert(t[13] == 3);
    assert(t[14] == 25);
    assert(t[15] == 17);
    assert(t[16] == 0);
    assert(t[17] == 12);
    assert(t[18] == 4);
    assert(t[19] == 22);
    assert(t[20] == 13);
    assert(t[21] == 8);
    assert(t[22] == 20);
    assert(t[23] == 24);
    assert(t[24] == 6);
    assert(t[25] == 21);
    assert(is_rotor_table(t));
    assert(rotor_surjective(t));
}

/// Law: every named historical rotor table is a bijection on the alphabet
/// positions — its 26 entries are distinct positions below 26, and every
/// position below 26 occurs among them.
pub proof fn lemma_rotor_tables_bijective()
    ensures
        is_rotor_table(rotor_i_table()) && rotor_surjective(rotor_i_table()),
        is_rotor_table(rotor_ii_table()) && rotor_surjective(rotor_ii_table()),
        is_rotor_table(rotor_iii_table()) && rotor_surjective(rotor_iii_table()),
        is_rotor_table(rotor_iv_table()) && rotor_surjective(rotor_iv_table()),
        is_rotor_table(rotor_v_table()) && rotor_surjective(rotor_v_table()),
        is_rotor_table(rotor_vi_table()) && rotor_surjective(rotor_vi_table()),
        is_rotor_table(rotor_vii_table()) && rotor_surjective(rotor_vii_table()),
        is_rotor_table(rotor_viii_table()) && rotor_surjective(rotor_viii_table()),
{
    lemma_rotor_i_props();
    lemma_rotor_ii_props();
    lemma_rotor_iii_props();
    lemma_rotor_iv_props();
    lemma_rotor_v_props();
    lemma_rotor_vi_props();
    lemma_rotor_vii_props();
    lemma_rotor_viii_props();
}

/// Accumulates rotor tables by their historical names, in the order of the
/// calls, and yields the finished immutable engine.
pub struct EnigmaBuilder(EnigmaMachine);

impl EnigmaBuilder {
    /// The rotor tables added so far, in the order added.
    pub closed spec fn rotors_view(self) -> Seq<Seq<usize>> {
        self.0.rotors_view()
    }

    /// A builder with no rotors yet: its engine would only lowercase.
    pub fn new() -> (r: Self)
        ensures
            r.rotors_view() == Seq::<Seq<usize>>::empty(),
    {
        EnigmaBuilder(EnigmaMachine::empty())
    }

    /// Appends the historical Rotor I (Enigma I, 1930) to the rotor stack.
    pub fn with_enigma_i(self) -> (r: Self)
        ensures
            r.rotors_view() == self.rotors_view().push(rotor_i_table()),
    {
        let rotor: Rotor = [
            4, 10, 12, 5, 11, 6, 3, 16, 21, 25, 13, 19, 14, 22, 24, 7, 23, 20, 18, 15, 0, 8, 1, 17, 2, 9,
        ];
        proof {
            lemma_rotor_i_props();
            assert(rotor@ =~= rotor_i_table());
        }
        let EnigmaBuilder(m) = self;
        EnigmaBuilder(m.push_rotor(rotor))
    }

    /// Appends the historical Rotor II (Enigma I, 1930) to the rotor stack.
    pub fn with_enigma_ii(self) -> (r: Self)
        ensures
            r.rotors_view() == self.rotors_view().push(rotor_ii_table()),
    {
        let rotor: Rotor = [
            0, 9, 3, 10, 18, 8, 17, 20, 23, 1, 11, 7, 22, 19, 12, 2, 16, 6, 25, 13, 15, 24, 5, 21, 14, 4,
        ];
        proof {
            lemma_rotor_ii_props();
            assert(rotor@ =~= rotor_ii_table());
        }
        let EnigmaBuilder(m) = self;
        EnigmaBuilder(m.push_rotor(rotor))
    }

    /// Appends the historical Rotor III (Enigma I, 1930) to the rotor stack.
    pub fn with_enigma_iii(self) -> (r: Self)
        ensures
            r.rotors_view() == self.rotors_view().push(rotor_iii_table()),
    {
        let rotor: Rotor = [
            1, 3, 5, 7, 9, 11, 2, 15, 17, 19, 23, 21, 25, 13, 24, 4, 8, 22, 6, 0, 10, 12, 20, 18, 16, 14,
        ];
        proof {
            lemma_rotor_iii_props();
            assert(rotor@ =~= rotor_iii_table());
        }
        let EnigmaBuilder(m) = self;
        EnigmaBuilder(m.push_rotor(rotor))
    }

    /// Appends the historical Rotor IV (M3 Army, 1938) to the rotor stack.
    pub fn with_enigma_iv(self) -> (r: Self)
        ensures
            r.rotors_view() == self.rotors_view().push(rotor_iv_table()),
    {
        let rotor: Rotor = [
            4, 18, 14, 21, 15, 25, 9, 0, 24, 16, 20, 8, 17, 7, 23, 11, 13, 5, 19, 6, 10, 3, 2, 12, 22, 1,
        ];
        proof {
            lemma_rotor_iv_props();
            assert(rotor@ =~= rotor_iv_table());
        }
        let EnigmaBuilder(m) = self;
        EnigmaBuilder(m.push_rotor(rotor))
    }

    /// Appends the historical Rotor V (M3 Army, 1938) to the rotor stack.
    pub fn with_enigma_v(self) -> (r: Self)
        ensures
            r.rotors_view() == self.rotors_view().push(rotor_v_table()),
    {
        let rotor: Rotor = [
            21, 25, 1, 17, 6, 8, 19, 24, 20, 15, 18, 3, 13, 7, 11, 23, 0, 22, 12, 9, 16, 14, 5, 4, 2, 10,
        ];
        proof {
            lemma_rotor_v_props();
            assert(rotor@ =~= rotor_v_table());
        }
        let EnigmaBuilder(m) = self;
        EnigmaBuilder(m.push_rotor(rotor))
    }

    /// Appends the historical Rotor VI (M3 and M4 Naval, 1939) to the rotor stack.
    pub fn with_enigma_vi(self) -> (r: Self)
        ensures
            r.rotors_view() == self.rotors_view().push(rotor_vi_table()),
    {
        let rotor: Rotor = [
            9, 15, 6, 21, 14, 20, 12, 5, 24, 16, 1, 4, 13, 7, 25, 17, 3, 10, 0, 18, 23, 11, 8, 2, 19, 22,
        ];
        proof {
            lemma_rotor_vi_props();
            assert(rotor@ =~= rotor_vi_table());
        }
        let EnigmaBuilder(m) = self;
        EnigmaBuilder(m.push_rotor(rotor))
    }

    /// Appends the historical Rotor VII (M3 and M4 Naval, 1939) to the rotor stack.
    pub fn with_enigma_vii(self) -> (r: Self)
        ensures
            r.rotors_view() == self.rotors_view().push(rotor_vii_table()),
    {
        let rotor: Rotor = [
            13, 25, 9, 7, 6, 17, 2, 23, 12, 24, 18, 22, 1, 14, 20, 5, 0, 8, 21, 11, 15, 4, 10, 16, 3, 19,
        ];
        proof {
            lemma_rotor_vii_props();
            assert(rotor@ =~= rotor_vii_table());
        }
        let EnigmaBuilder(m) = self;
        EnigmaBuilder(m.push_rotor(rotor))
    }

    /// Appends the historical Rotor VIII (M3 and M4 Naval, 1939) to the rotor stack.
    pub fn with_enigma_viii(self) -> (r: Self)
        ensures
            r.rotors_view() == self.rotors_view().push(rotor_viii_table()),
    {
        let rotor: Rotor = [
            5, 10, 16, 7, 19, 11, 23, 14, 2, 1, 9, 18, 15, 3, 25, 17, 0, 12, 4, 22, 13, 8, 20, 24, 6, 21,
        ];
        proof {
            lemma_rotor_viii_props();
            assert(rotor@ =~= rotor_viii_table());
        }
        let EnigmaBuilder(m) = self;
        EnigmaBuilder(m.push_rotor(rotor))
    }

    /// Consumes the builder and yields the engine holding exactly the
    /// rotors added, in the order added.
    pub fn build(self) -> (r: EnigmaMachine)
        ensures
            r.rotors_view() == self.rotors_view(),
    {
        self.0
    }
}

} // verus!

