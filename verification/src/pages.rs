//! Arithmetic on whole pages.
use vstd::prelude::*;

verus! {

/// The number of pages that `len` bytes take up.
pub open spec fn page_count(len: nat, page: nat) -> nat
    recommends
        page > 0,
{
    ((len + page - 1) / page as int) as nat
}

/// A page lies in a range, by its number, exactly when it starts before the
/// range ends.
pub proof fn lemma_page_count(len: nat, page: nat, k: nat)
    requires
        page > 0,
    ensures
        k < page_count(len, page) <==> k * page < len,
{
    let n = (len + page - 1) / page as int;
    vstd::arithmetic::div_mod::lemma_fundamental_div_mod(len + page - 1, page as int);
    vstd::arithmetic::div_mod::lemma_mod_bound(len + page - 1, page as int);
    assert(len <= page * n < len + page);
    if k < n {
        assert(k * page <= (n - 1) * page) by (nonlinear_arith)
            requires
                k <= n - 1,
                page > 0,
        ;
        assert((n - 1) * page == page * n - page) by (nonlinear_arith);
    } else {
        assert(k * page >= page * n) by (nonlinear_arith)
            requires
                k >= n,
                page > 0,
        ;
    }
}

/// The pages that `len` bytes take up hold them, with less than a page to spare.
pub proof fn lemma_page_count_holds(len: nat, page: nat)
    requires
        page > 0,
    ensures
        len <= page_count(len, page) * page < len + page,
        (page_count(len, page) * page) % page == 0,
{
    let n = (len + page - 1) / page as int;
    vstd::arithmetic::div_mod::lemma_fundamental_div_mod(len + page - 1, page as int);
    vstd::arithmetic::div_mod::lemma_mod_bound(len + page - 1, page as int);
    assert(n * page == page * n) by (nonlinear_arith);
    vstd::arithmetic::div_mod::lemma_mod_multiples_basic(n, page as int);
}

/// The number of pages that `len` bytes take up.
pub fn pages_for(len: usize, page: usize) -> (r: usize)
    requires
        page > 0,
    ensures
        r == page_count(len as nat, page as nat),
{
    let whole = len / page;
    proof {
        vstd::arithmetic::div_mod::lemma_fundamental_div_mod(len as int, page as int);
        vstd::arithmetic::div_mod::lemma_mod_bound(len as int, page as int);
        let rest = len as int % page as int;
        let last = if rest == 0 {
            page - 1
        } else {
            rest - 1
        };
        let count = if rest == 0 {
            whole as int
        } else {
            whole + 1
        };
        assert(len + page - 1 == count * page + last) by (nonlinear_arith)
            requires
                len == page * whole + rest,
                count == whole + (if rest == 0 {
                    0int
                } else {
                    1int
                }),
                last == rest - 1 + (if rest == 0 {
                    page as int
                } else {
                    0int
                }),
        ;
        vstd::arithmetic::div_mod::lemma_fundamental_div_mod_converse(
            len + page - 1,
            page as int,
            count,
            last,
        );
        if rest != 0 {
            assert(whole < usize::MAX) by (nonlinear_arith)
                requires
                    len == page * whole + rest,
                    rest > 0,
                    page > 0,
                    len <= usize::MAX,
            ;
        }
    }
    if len % page == 0 {
        whole
    } else {
        whole + 1
    }
}

/// The start of the page that holds `address`.
pub fn page_start(address: usize, page: usize) -> (r: usize)
    requires
        page > 0,
    ensures
        r as int % page as int == 0,
        r <= address < r + page,
{
    proof {
        let n = address as int / page as int;
        vstd::arithmetic::div_mod::lemma_fundamental_div_mod(address as int, page as int);
        vstd::arithmetic::div_mod::lemma_mod_bound(address as int, page as int);
        vstd::arithmetic::div_mod::lemma_mod_multiples_basic(n, page as int);
        assert(page * n == n * page) by (nonlinear_arith);
    }
    address / page * page
}

} // verus!
