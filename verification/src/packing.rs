//! How kernel arguments are laid out in one buffer.
//!
//! Arguments are packed in order. Each starts at the lowest free offset that its alignment
//! allows, and the bytes skipped on the way are zero.

use vstd::prelude::*;

verus! {

/// The lowest multiple of `align` that is not below `offset`.
pub open spec fn align_up(offset: int, align: int) -> int {
    offset + (align - offset % align) % align
}

/// `n` zero bytes.
pub open spec fn zeros(n: int) -> Seq<u8> {
    Seq::new(n as nat, |i: int| 0u8)
}

/// One kernel argument: the bytes of its value and the alignment of its type.
pub struct Argument {
    pub align: nat,
    pub bytes: Seq<u8>,
}

/// The buffer `bytes` after `argument` has been packed behind it.
pub open spec fn packed_behind(bytes: Seq<u8>, argument: Argument) -> Seq<u8> {
    let start = align_up(bytes.len() as int, argument.align as int);
    bytes + zeros(start - bytes.len()) + argument.bytes
}

/// The buffer that holds `arguments`, packed one behind the other.
pub open spec fn packed(arguments: Seq<Argument>) -> Seq<u8>
    decreases arguments.len(),
{
    if arguments.len() == 0 {
        Seq::empty()
    } else {
        packed_behind(packed(arguments.drop_last()), arguments.last())
    }
}

/// Where argument `i` starts in the buffer that holds `arguments`.
pub open spec fn packed_offset(arguments: Seq<Argument>, i: int) -> int {
    align_up(packed(arguments.take(i)).len() as int, arguments[i].align as int)
}

/// `align_up` gives the lowest multiple of `align` from `offset` on, and so skips fewer than
/// `align` bytes.
pub proof fn lemma_align_up_is_least(offset: int, align: int)
    requires
        0 <= offset,
        0 < align,
    ensures
        align_up(offset, align) % align == 0,
        offset <= align_up(offset, align) < offset + align,
        forall|multiple: int|
            #![trigger multiple % align]
            offset <= multiple && multiple % align == 0 ==> align_up(offset, align) <= multiple,
{
    let r = offset % align;
    let start = align_up(offset, align);
    vstd::arithmetic::div_mod::lemma_fundamental_div_mod(offset, align);
    vstd::arithmetic::div_mod::lemma_mod_bound(offset, align);
    let q = offset / align;
    if r == 0 {
        vstd::arithmetic::div_mod::lemma_mod_self_0(align);
        assert(start == offset);
    } else {
        vstd::arithmetic::div_mod::lemma_small_mod((align - r) as nat, align as nat);
        assert(start == offset + align - r);
        assert(start == align * (q + 1)) by (nonlinear_arith)
            requires
                start == offset + align - r,
                offset == align * q + r,
        ;
        assert(align * (q + 1) == (q + 1) * align) by (nonlinear_arith);
        vstd::arithmetic::div_mod::lemma_mod_multiples_basic(q + 1, align);
    }
    assert forall|multiple: int|
        #![trigger multiple % align]
        offset <= multiple && multiple % align == 0 implies start <= multiple by {
        vstd::arithmetic::div_mod::lemma_fundamental_div_mod(multiple, align);
        let p = multiple / align;
        if r != 0 {
            assert(p > q) by (nonlinear_arith)
                requires
                    align * p >= align * q + r,
                    r > 0,
                    align > 0,
            ;
            assert(align * p >= align * (q + 1)) by (nonlinear_arith)
                requires
                    p >= q + 1,
                    align > 0,
            ;
        }
    }
}

/// Every argument's alignment is at least one.
pub open spec fn aligned_types(arguments: Seq<Argument>) -> bool {
    forall|i: int| 0 <= i < arguments.len() ==> (#[trigger] arguments[i]).align > 0
}

/// Packing one more argument leaves the buffer and the offsets of the others as they were.
pub proof fn lemma_packed_push(arguments: Seq<Argument>, argument: Argument)
    ensures
        packed(arguments.push(argument)) == packed_behind(packed(arguments), argument),
        packed_offset(arguments.push(argument), arguments.len() as int) == align_up(
            packed(arguments).len() as int,
            argument.align as int,
        ),
        forall|i: int|
            0 <= i < arguments.len() ==> #[trigger] packed_offset(arguments.push(argument), i)
                == packed_offset(arguments, i),
{
    let more = arguments.push(argument);
    assert(more.drop_last() == arguments);
    assert(more.take(arguments.len() as int) == arguments);
    assert forall|i: int| 0 <= i < arguments.len() implies #[trigger] packed_offset(more, i)
        == packed_offset(arguments, i) by {
        assert(more.take(i) == arguments.take(i));
    }
}

/// The buffer of the first `n` arguments is a prefix of the buffer of all.
pub proof fn lemma_packed_prefix(arguments: Seq<Argument>, n: int)
    requires
        aligned_types(arguments),
        0 <= n <= arguments.len(),
    ensures
        packed(arguments.take(n)).len() <= packed(arguments).len(),
        packed(arguments).take(packed(arguments.take(n)).len() as int) == packed(arguments.take(n)),
    decreases arguments.len(),
{
    if n == arguments.len() {
        assert(arguments.take(n) == arguments);
        assert(packed(arguments).take(packed(arguments).len() as int) == packed(arguments));
    } else {
        let init = arguments.drop_last();
        assert(aligned_types(init));
        lemma_packed_prefix(init, n);
        assert(init.take(n) == arguments.take(n));
        lemma_align_up_is_least(packed(init).len() as int, arguments.last().align as int);
        let k = packed(arguments.take(n)).len() as int;
        assert(packed(arguments).take(k) == packed(init).take(k));
    }
}

/// Reading back: the bytes at an argument's offset are the bytes of its value.
pub proof fn lemma_packed_reads_back(arguments: Seq<Argument>, i: int)
    requires
        aligned_types(arguments),
        0 <= i < arguments.len(),
    ensures
        0 <= packed_offset(arguments, i),
        packed_offset(arguments, i) + arguments[i].bytes.len() <= packed(arguments).len(),
        packed(arguments).subrange(
            packed_offset(arguments, i),
            packed_offset(arguments, i) + arguments[i].bytes.len(),
        ) == arguments[i].bytes,
{
    let before = arguments.take(i);
    let through = arguments.take(i + 1);
    assert(through == before.push(arguments[i]));
    lemma_packed_push(before, arguments[i]);
    lemma_align_up_is_least(packed(before).len() as int, arguments[i].align as int);
    lemma_packed_prefix(arguments, i + 1);
    let start = packed_offset(arguments, i);
    let end = start + arguments[i].bytes.len();
    assert(end == packed(through).len());
    assert(packed(arguments).subrange(start, end) == packed(arguments).take(end).subrange(
        start,
        end,
    ));
    assert(packed(through).subrange(start, end) == arguments[i].bytes);
}

/// Every argument starts at a multiple of its alignment, so its address is aligned wherever the
/// buffer itself starts at an aligned address.
pub proof fn lemma_packed_is_aligned(arguments: Seq<Argument>, i: int, base: int)
    requires
        aligned_types(arguments),
        0 <= i < arguments.len(),
    ensures
        packed_offset(arguments, i) % (arguments[i].align as int) == 0,
        base % (arguments[i].align as int) == 0 ==> (base + packed_offset(arguments, i)) % (
        arguments[i].align as int) == 0,
{
    let align = arguments[i].align as int;
    let start = packed_offset(arguments, i);
    lemma_align_up_is_least(packed(arguments.take(i)).len() as int, align);
    if base % align == 0 {
        vstd::arithmetic::div_mod::lemma_add_mod_noop(base, start, align);
        vstd::arithmetic::div_mod::lemma_small_mod(0, align as nat);
    }
}

/// No two arguments overlap: each ends before the next one starts.
pub proof fn lemma_packed_is_disjoint(arguments: Seq<Argument>, i: int, j: int)
    requires
        aligned_types(arguments),
        0 <= i < j < arguments.len(),
    ensures
        packed_offset(arguments, i) + arguments[i].bytes.len() <= packed_offset(arguments, j),
{
    let before = arguments.take(j);
    assert(aligned_types(before));
    lemma_packed_reads_back(before, i);
    assert(before.take(i) == arguments.take(i));
    lemma_align_up_is_least(packed(before).len() as int, arguments[j].align as int);
}

/// Nothing but padding lies between two arguments: fewer bytes than the alignment of the one
/// that follows, all of them zero.
pub proof fn lemma_packed_padding(arguments: Seq<Argument>, i: int)
    requires
        aligned_types(arguments),
        0 <= i < arguments.len(),
    ensures
        ({
            let gap = packed(arguments.take(i)).len() as int;
            &&& i > 0 ==> gap == packed_offset(arguments, i - 1) + arguments[i - 1].bytes.len()
            &&& i == 0 ==> gap == 0
            &&& gap <= packed_offset(arguments, i) < gap + arguments[i].align
            &&& packed_offset(arguments, i) <= packed(arguments).len()
            &&& forall|k: int|
                gap <= k < packed_offset(arguments, i) ==> #[trigger] packed(arguments)[k] == 0
        }),
{
    let before = arguments.take(i);
    let gap = packed(before).len() as int;
    let start = packed_offset(arguments, i);
    lemma_align_up_is_least(gap, arguments[i].align as int);
    if i > 0 {
        let earlier = arguments.take(i - 1);
        assert(before == earlier.push(arguments[i - 1]));
        lemma_packed_push(earlier, arguments[i - 1]);
        lemma_align_up_is_least(packed(earlier).len() as int, arguments[i - 1].align as int);
    }
    let through = arguments.take(i + 1);
    assert(through == before.push(arguments[i]));
    lemma_packed_push(before, arguments[i]);
    lemma_packed_prefix(arguments, i + 1);
    assert forall|k: int| gap <= k < start implies #[trigger] packed(arguments)[k] == 0 by {
        assert(packed(arguments)[k] == packed(arguments).take(packed(through).len() as int)[k]);
    }
}

/// The buffer ends with its last argument.
pub proof fn lemma_packed_length(arguments: Seq<Argument>)
    requires
        aligned_types(arguments),
    ensures
        arguments.len() == 0 ==> packed(arguments).len() == 0,
        arguments.len() > 0 ==> packed(arguments).len() == packed_offset(
            arguments,
            arguments.len() - 1,
        ) + arguments.last().bytes.len(),
{
    if arguments.len() > 0 {
        let init = arguments.drop_last();
        assert(arguments.take(arguments.len() - 1) == init);
        lemma_align_up_is_least(packed(init).len() as int, arguments.last().align as int);
    }
}

} // verus!
