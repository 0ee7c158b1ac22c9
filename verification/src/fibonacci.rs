//! Fibonacci numbers, once by the textbook recursion and once with two
//! accumulators.

use vstd::prelude::*;

verus! {

/// The Fibonacci sequence that starts `0, 1, 1, 2, 3, 5, ...`.
pub open spec fn fib(n: nat) -> nat
    decreases n,
{
    if n == 0 {
        0
    } else if n == 1 {
        1
    } else {
        fib((n - 2) as nat) + fib((n - 1) as nat)
    }
}

/// The largest index whose Fibonacci number fits in a `u32`.
pub const MAX_INDEX_U32: u32 = 47;

/// The largest index whose Fibonacci number fits in a `u64`.
pub const MAX_INDEX_U64: u64 = 93;

/// The sequence never decreases.
pub proof fn lemma_fib_monotonic(i: nat, j: nat)
    requires
        i <= j,
    ensures
        fib(i) <= fib(j),
    decreases j,
{
    if i < j {
        if j >= 2 {
            lemma_fib_monotonic(i, (j - 1) as nat);
        }
    }
}

/// `fib(47)` and `fib(93)`, the last values below `2^32` and `2^64`.
pub proof fn lemma_fib_limits()
    ensures
        fib(47) == 2971215073,
        fib(93) == 12200160415121876738,
{
    reveal_with_fuel(fib, 4);
    assert(fib(3) == 2 && fib(4) == 3);
    assert(fib(6) == 8 && fib(7) == 13);
    assert(fib(9) == 34 && fib(10) == 55);
    assert(fib(12) == 144 && fib(13) == 233);
    assert(fib(15) == 610 && fib(16) == 987);
    assert(fib(18) == 2584 && fib(19) == 4181);
    assert(fib(21) == 10946 && fib(22) == 17711);
    assert(fib(24) == 46368 && fib(25) == 75025);
    assert(fib(27) == 196418 && fib(28) == 317811);
    assert(fib(30) == 832040 && fib(31) == 1346269);
    assert(fib(33) == 3524578 && fib(34) == 5702887);
    assert(fib(36) == 14930352 && fib(37) == 24157817);
    assert(fib(39) == 63245986 && fib(40) == 102334155);
    assert(fib(42) == 267914296 && fib(43) == 433494437);
    assert(fib(45) == 1134903170 && fib(46) == 1836311903);
    assert(fib(48) == 4807526976 && fib(49) == 7778742049);
    assert(fib(51) == 20365011074 && fib(52) == 32951280099);
    assert(fib(54) == 86267571272 && fib(55) == 139583862445);
    assert(fib(57) == 365435296162 && fib(58) == 591286729879);
    assert(fib(60) == 1548008755920 && fib(61) == 2504730781961);
    assert(fib(63) == 6557470319842 && fib(64) == 10610209857723);
    assert(fib(66) == 27777890035288 && fib(67) == 44945570212853);
    assert(fib(69) == 117669030460994 && fib(70) == 190392490709135);
    assert(fib(72) == 498454011879264 && fib(73) == 806515533049393);
    assert(fib(75) == 2111485077978050 && fib(76) == 3416454622906707);
    assert(fib(78) == 8944394323791464 && fib(79) == 14472334024676221);
    assert(fib(81) == 37889062373143906 && fib(82) == 61305790721611591);
    assert(fib(84) == 160500643816367088 && fib(85) == 259695496911122585);
    assert(fib(87) == 679891637638612258 && fib(88) == 1100087778366101931);
    assert(fib(90) == 2880067194370816120 && fib(91) == 4660046610375530309);
}

/// The `n`-th Fibonacci number, counted so that the first and the second
/// are both 1. Index 0 gives 1 as well.
pub fn fibonacci(n: u32) -> (value: u32)
    requires
        n <= MAX_INDEX_U32,
    ensures
        value == if n == 0 { 1 } else { fib(n as nat) },
    decreases n,
{
    if n < 3 {
        assert(fib(1) == 1 && fib(2) == 1) by {
            reveal_with_fuel(fib, 3);
        }
        1
    } else {
        proof {
            lemma_fib_limits();
            lemma_fib_monotonic(n as nat, 47);
        }
        fibonacci(n - 2) + fibonacci(n - 1)
    }
}

/// Carries the pair `(a, b)` forward `n` steps of `(a, b) -> (a + b, a)`.
fn advance(n: u64, a: u64, b: u64, Ghost(k): Ghost<nat>) -> (value: u64)
    requires
        k + n <= MAX_INDEX_U64,
        a == fib(k),
        b == if k == 0 { 1 } else { fib((k - 1) as nat) },
    ensures
        value == fib((k + n) as nat),
    decreases n,
{
    if n == 0 {
        a
    } else {
        proof {
            lemma_fib_limits();
            lemma_fib_monotonic((k + 1) as nat, 93);
        }
        advance(n - 1, a + b, a, Ghost((k + 1) as nat))
    }
}

/// The `n`-th Fibonacci number with `fibonacci_tco(0) == 0`, computed in
/// `n` additions.
pub fn fibonacci_tco(n: u64) -> (value: u64)
    requires
        n <= MAX_INDEX_U64,
    ensures
        value == fib(n as nat),
{
    advance(n, 0, 1, Ghost(0))
}

} // verus!
