//! The names under which the contract keeps its state, and a check that no
//! two of them collide.
use vstd::prelude::*;
use crate::types::{bytes_equal, copy_bytes};

verus! {

/// The storage key names, as the bytes of their symbols, in the order the
/// contract lists them.
pub open spec fn storage_key_names() -> Seq<Seq<u8>> {
    seq![
        seq![116u8, 101u8, 97u8, 99u8, 104u8, 108u8, 110u8, 107u8],
        seq![116u8, 108u8, 95u8, 116u8, 111u8, 107u8, 101u8, 110u8],
        seq![116u8, 108u8, 95u8, 118u8, 97u8, 108u8, 105u8, 100u8],
        seq![116u8, 108u8, 95u8, 109u8, 105u8, 110u8, 118u8, 108u8],
        seq![116u8, 108u8, 95u8, 110u8, 111u8, 110u8, 99u8, 101u8],
        seq![116u8, 108u8, 95u8, 98u8, 114u8, 116u8, 120u8, 115u8],
        seq![116u8, 108u8, 95u8, 99u8, 104u8, 97u8, 105u8, 110u8],
        seq![116u8, 108u8, 95u8, 97u8, 100u8, 109u8, 105u8, 110u8],
        seq![116u8, 108u8, 95u8, 102u8, 101u8, 101u8, 114u8, 99u8],
        seq![116u8, 108u8, 95u8, 98u8, 114u8, 102u8, 101u8, 101u8],
        seq![116u8, 108u8, 95u8, 118u8, 97u8, 108u8, 105u8, 102u8],
        seq![116u8, 108u8, 95u8, 98u8, 114u8, 112u8, 114u8, 112u8],
        seq![116u8, 108u8, 95u8, 112u8, 114u8, 111u8, 112u8, 99u8, 116u8],
        seq![116u8, 108u8, 95u8, 99u8, 111u8, 110u8, 115u8, 116u8],
        seq![116u8, 108u8, 95u8, 118u8, 108u8, 115u8, 116u8, 107u8],
        seq![116u8, 108u8, 95u8, 115u8, 108u8, 114u8, 101u8, 99u8],
        seq![116u8, 108u8, 95u8, 118u8, 108u8, 114u8, 119u8, 100u8],
        seq![116u8, 108u8, 95u8, 115u8, 108u8, 99u8, 110u8, 116u8],
        seq![116u8, 108u8, 95u8, 99u8, 104u8, 99u8, 102u8, 103u8],
        seq![116u8, 108u8, 95u8, 109u8, 99u8, 97u8, 115u8, 116u8],
        seq![116u8, 108u8, 95u8, 97u8, 115u8, 101u8, 116u8, 99u8, 116u8],
        seq![116u8, 108u8, 95u8, 99u8, 114u8, 115u8, 99u8, 114u8],
        seq![116u8, 108u8, 95u8, 99u8, 114u8, 115u8, 99u8, 111u8],
        seq![116u8, 108u8, 95u8, 116u8, 111u8, 107u8, 99u8, 116u8],
        seq![116u8, 108u8, 95u8, 99u8, 110u8, 116u8, 116u8, 107u8],
    ]
}

/// The names held by a list of keys.
pub open spec fn names_of(keys: Seq<Vec<u8>>) -> Seq<Seq<u8>> {
    keys.map_values(|k: Vec<u8>| k@)
}

/// Whether the key at `i` occurs again later in `s`.
pub open spec fn repeated_later(s: Seq<Seq<u8>>, i: int) -> bool {
    exists|j: int| i < j < s.len() && s[j] == s[i]
}

/// No storage key name occurs twice.
pub proof fn lemma_storage_key_names_distinct()
    ensures
        forall|i: int| 0 <= i < storage_key_names().len() ==> !#[trigger] repeated_later(storage_key_names(), i),
{
    let s = storage_key_names();
    assert(s.len() == 25);
    assert forall|i: int, j: int| 0 <= i < j < 25 implies #[trigger] s[i] != #[trigger] s[j] by {
        assert(s[i].len() == 0 || s[i] != s[j]) by {
            if s[i] == s[j] {
                assert(s[i][3] == s[j][3] && s[i][4] == s[j][4] && s[i][5] == s[j][5]);
            }
        }
    }
    assert forall|i: int| 0 <= i < s.len() implies !#[trigger] repeated_later(s, i) by {
        if repeated_later(s, i) {
            let j = choose|j: int| i < j < s.len() && s[j] == s[i];
            assert(s[i] != s[j]);
        }
    }
}

/// Every storage key name, in the contract's order.
pub fn all_storage_keys() -> (keys: Vec<Vec<u8>>)
    ensures
        keys@.len() == storage_key_names().len(),
        forall|i: int| 0 <= i < keys@.len() ==> #[trigger] keys@[i]@ == storage_key_names()[i],
{
    let mut keys: Vec<Vec<u8>> = Vec::new();
    keys.push(vec![116u8, 101u8, 97u8, 99u8, 104u8, 108u8, 110u8, 107u8]); // teachlnk
    keys.push(vec![116u8, 108u8, 95u8, 116u8, 111u8, 107u8, 101u8, 110u8]); // tl_token
    keys.push(vec![116u8, 108u8, 95u8, 118u8, 97u8, 108u8, 105u8, 100u8]); // tl_valid
    keys.push(vec![116u8, 108u8, 95u8, 109u8, 105u8, 110u8, 118u8, 108u8]); // tl_minvl
    keys.push(vec![116u8, 108u8, 95u8, 110u8, 111u8, 110u8, 99u8, 101u8]); // tl_nonce
    keys.push(vec![116u8, 108u8, 95u8, 98u8, 114u8, 116u8, 120u8, 115u8]); // tl_brtxs
    keys.push(vec![116u8, 108u8, 95u8, 99u8, 104u8, 97u8, 105u8, 110u8]); // tl_chain
    keys.push(vec![116u8, 108u8, 95u8, 97u8, 100u8, 109u8, 105u8, 110u8]); // tl_admin
    keys.push(vec![116u8, 108u8, 95u8, 102u8, 101u8, 101u8, 114u8, 99u8]); // tl_feerc
    keys.push(vec![116u8, 108u8, 95u8, 98u8, 114u8, 102u8, 101u8, 101u8]); // tl_brfee
    keys.push(vec![116u8, 108u8, 95u8, 118u8, 97u8, 108u8, 105u8, 102u8]); // tl_valif
    keys.push(vec![116u8, 108u8, 95u8, 98u8, 114u8, 112u8, 114u8, 112u8]); // tl_brprp
    keys.push(vec![116u8, 108u8, 95u8, 112u8, 114u8, 111u8, 112u8, 99u8, 116u8]); // tl_propct
    keys.push(vec![116u8, 108u8, 95u8, 99u8, 111u8, 110u8, 115u8, 116u8]); // tl_const
    keys.push(vec![116u8, 108u8, 95u8, 118u8, 108u8, 115u8, 116u8, 107u8]); // tl_vlstk
    keys.push(vec![116u8, 108u8, 95u8, 115u8, 108u8, 114u8, 101u8, 99u8]); // tl_slrec
    keys.push(vec![116u8, 108u8, 95u8, 118u8, 108u8, 114u8, 119u8, 100u8]); // tl_vlrwd
    keys.push(vec![116u8, 108u8, 95u8, 115u8, 108u8, 99u8, 110u8, 116u8]); // tl_slcnt
    keys.push(vec![116u8, 108u8, 95u8, 99u8, 104u8, 99u8, 102u8, 103u8]); // tl_chcfg
    keys.push(vec![116u8, 108u8, 95u8, 109u8, 99u8, 97u8, 115u8, 116u8]); // tl_mcast
    keys.push(vec![116u8, 108u8, 95u8, 97u8, 115u8, 101u8, 116u8, 99u8, 116u8]); // tl_asetct
    keys.push(vec![116u8, 108u8, 95u8, 99u8, 114u8, 115u8, 99u8, 114u8]); // tl_crscr
    keys.push(vec![116u8, 108u8, 95u8, 99u8, 114u8, 115u8, 99u8, 111u8]); // tl_crsco
    keys.push(vec![116u8, 108u8, 95u8, 116u8, 111u8, 107u8, 99u8, 116u8]); // tl_tokct
    keys.push(vec![116u8, 108u8, 95u8, 99u8, 110u8, 116u8, 116u8, 107u8]); // tl_cnttk
    keys
}

/// The first key of `keys` (by position) that occurs again later, if any.
pub fn find_key_collision(keys: &Vec<Vec<u8>>) -> (r: Result<(), Vec<u8>>)
    ensures
        match r {
            Ok(()) => forall|i: int| 0 <= i < keys@.len() ==> !#[trigger] repeated_later(names_of(keys@), i),
            Err(k) => exists|i: int| {
                &&& 0 <= i < keys@.len()
                &&& #[trigger] repeated_later(names_of(keys@), i)
                &&& k@ == keys@[i]@
                &&& forall|i2: int| 0 <= i2 < i ==> !#[trigger] repeated_later(names_of(keys@), i2)
            },
        },
{
    let ghost s = names_of(keys@);
    let mut i: usize = 0;
    while i < keys.len()
        invariant
            i <= keys@.len(),
            s == names_of(keys@),
            forall|i2: int| 0 <= i2 < i ==> !#[trigger] repeated_later(s, i2),
        decreases keys@.len() - i,
    {
        let mut j: usize = i + 1;
        while j < keys.len()
            invariant
                i < keys@.len(),
                i + 1 <= j <= keys@.len(),
                s == names_of(keys@),
                forall|i2: int| 0 <= i2 < i ==> !#[trigger] repeated_later(s, i2),
                forall|j2: int| i < j2 < j ==> #[trigger] s[j2] != s[i as int],
            decreases keys@.len() - j,
        {
            if bytes_equal(&keys[i], &keys[j]) {
                assert(s[j as int] == keys@[j as int]@ && s[i as int] == keys@[i as int]@);
                assert(repeated_later(s, i as int));
                return Err(copy_bytes(&keys[i]));
            }
            proof { assert(keys@[j as int]@ != keys@[i as int]@); assert(s[j as int] != s[i as int]); }
            j = j + 1;
        }
        proof {
            assert(!repeated_later(s, i as int)) by {
                if repeated_later(s, i as int) {
                    let j2 = choose|j2: int| i < j2 < s.len() && s[j2] == s[i as int];
                    assert(s[j2] != s[i as int]);
                }
            }
        }
        i = i + 1;
    }
    Ok(())
}

/// The first storage key name that occurs again later in the list, if any;
/// the names are distinct, so there is none.
pub fn detect_key_collisions() -> (r: Result<(), Vec<u8>>)
    ensures
        r is Ok,
        match r {
            Ok(()) => forall|i: int| 0 <= i < storage_key_names().len() ==> !#[trigger] repeated_later(storage_key_names(), i),
            Err(k) => exists|i: int| {
                &&& 0 <= i < storage_key_names().len()
                &&& #[trigger] repeated_later(storage_key_names(), i)
                &&& k@ == storage_key_names()[i]
                &&& forall|i2: int| 0 <= i2 < i ==> !#[trigger] repeated_later(storage_key_names(), i2)
            },
        },
{
    let keys = all_storage_keys();
    proof {
        assert(names_of(keys@) =~= storage_key_names());
    }
    find_key_collision(&keys)
}

} // verus!
