use vstd::prelude::*;
use crate::product::Product;

verus! {

/// The strings of `s`, separated by single spaces.
pub open spec fn joined(s: Seq<String>) -> Seq<char>
    decreases s.len(),
{
    if s.len() == 0 {
        Seq::empty()
    } else if s.len() == 1 {
        s[0]@
    } else {
        joined(s.drop_last()) + " "@ + s.last()@
    }
}

/// The text shown under an item in an announcement: its category and flags,
/// and its price on a second line where it has one.
pub open spec fn description_of(p: Product) -> Seq<char> {
    let head = p.category@ + " ["@ + joined(p.flags@) + "]"@;
    match p.price {
        Some(price) => head + "\n"@ + price@,
        None => head,
    }
}

pub fn product_description(product: &Product) -> (r: String)
    ensures
        r@ == description_of(*product),
{
    let mut r = product.category.clone();
    r.append(" [");
    let flags = &product.flags;
    let mut i: usize = 0;
    while i < flags.len()
        invariant
            0 <= i <= flags@.len(),
            r@ == product.category@ + " ["@ + joined(flags@.subrange(0, i as int)),
        decreases flags@.len() - i,
    {
        proof {
            let s = flags@.subrange(0, i as int + 1);
            assert(s.drop_last() == flags@.subrange(0, i as int));
            assert(s.last() == flags@[i as int]);
        }
        if i > 0 {
            r.append(" ");
        }
        r.append(flags[i].as_str());
        proof {
            assert(flags@.subrange(0, i as int + 1).len() == i + 1);
            if i == 0 {
                assert(flags@.subrange(0, 1)[0] == flags@[0]);
            }
        }
        i = i + 1;
        assert(r@ =~= product.category@ + " ["@ + joined(flags@.subrange(0, i as int)));
    }
    proof {
        assert(flags@.subrange(0, flags@.len() as int) == flags@);
    }
    r.append("]");
    match &product.price {
        Some(price) => {
            r.append("\n");
            r.append(price.as_str());
        },
        None => {},
    }
    assert(r@ =~= description_of(*product));
    r
}

pub open spec fn new_items_message(entity: Seq<char>) -> Seq<char> {
    entity + ": new products available"@
}

pub open spec fn restocked_items_message(entity: Seq<char>) -> Seq<char> {
    entity + ": products available again"@
}

/// The heading of an announcement of new items for `entity`.
pub fn new_items_content(entity: &str) -> (r: String)
    ensures
        r@ == new_items_message(entity@),
{
    let mut r = String::from_str(entity);
    r.append(": new products available");
    r
}

/// The heading of an announcement of restocked items for `entity`.
pub fn restocked_items_content(entity: &str) -> (r: String)
    ensures
        r@ == restocked_items_message(entity@),
{
    let mut r = String::from_str(entity);
    r.append(": products available again");
    r
}

/// The bounds of the messages that `len` items are sent in, at most `size`
/// items each: message `k` carries the items from `k * size` up to (not
/// including) the smaller of `(k + 1) * size` and `len`.
pub fn chunk_bounds(len: usize, size: usize) -> (r: Vec<(usize, usize)>)
    requires
        size > 0,
    ensures
        r@.len() == (len + size - 1) / size as int,
        forall|k: int|
            0 <= k < r@.len() ==> (#[trigger] r@[k]).0 == k * size && r@[k].1 == if (k + 1) * size
                < len {
                (k + 1) * size
            } else {
                len as int
            },
{
    let mut r: Vec<(usize, usize)> = Vec::new();
    let mut start: usize = 0;
    proof {
        assert(r@.len() * size == 0) by (nonlinear_arith)
            requires
                r@.len() == 0,
        ;
    }
    while start < len
        invariant
            size > 0,
            start <= len,
            start == (if r@.len() * size < len {
                r@.len() * size
            } else {
                len as int
            }),
            r@.len() * size < len + size,
            forall|k: int|
                0 <= k < r@.len() ==> (#[trigger] r@[k]).0 == k * size && r@[k].1 == if (k + 1)
                    * size < len {
                    (k + 1) * size
                } else {
                    len as int
                },
        decreases len - start,
    {
        let end: usize = if len - start > size {
            start + size
        } else {
            len
        };
        proof {
            assert((r@.len() + 1) * size == r@.len() * size + size) by (nonlinear_arith);
        }
        r.push((start, end));
        start = end;
    }
    proof {
        let n = r@.len();
        assert((len + size - 1) / size as int == n) by (nonlinear_arith)
            requires
                n * size >= len,
                n * size < len + size,
                size > 0,
        ;
    }
    r
}

} // verus!
