//! The command line that fetches thumbnails.

use crate::text::{decimal, number, texts};
use vstd::prelude::*;
use vstd::string::*;

verus! {

/// How many are fetched at the same time. They share a host, and so connections.
pub const PARALLEL_MAX: u8 = 6;

/// One file to fetch.
#[derive(Debug, PartialEq, Eq)]
pub struct Download {
    pub id: String,
    pub url: String,
    pub path: String,
}

pub open spec fn one_at_least(n: nat) -> nat {
    if n == 0 {
        1
    } else {
        n
    }
}

/// The arguments for the first `n` files.
pub open spec fn file_args(items: Seq<Download>, n: int) -> Seq<Seq<char>>
    decreases n,
{
    if n <= 0 {
        seq![]
    } else {
        file_args(items, n - 1) + seq!["-o"@, items[n - 1].path@, items[n - 1].url@]
    }
}

/// The arguments for one run. Nothing is fetched with no arguments at all.
pub open spec fn fetch_args(items: Seq<Download>, secs: nat, parallel: nat) -> Seq<Seq<char>> {
    if items.len() == 0 {
        seq![]
    } else {
        seq![
            "-sS"@,
            "--fail"@,
            "--max-time"@,
            decimal(one_at_least(secs)),
            "--parallel"@,
            "--parallel-max"@,
            decimal(one_at_least(parallel)),
        ] + file_args(items, items.len() as int)
    }
}

pub fn curl_args(items: &Vec<Download>, timeout_secs: u64, parallel_max: u8) -> (r: Vec<String>)
    ensures
        texts(r@) == fetch_args(items@, timeout_secs as nat, parallel_max as nat),
{
    let mut out: Vec<String> = Vec::new();
    if items.len() == 0 {
        assert(texts(out@) =~= seq![]);
        return out;
    }
    let secs: u64 = if timeout_secs == 0 {
        1
    } else {
        timeout_secs
    };
    let parallel: u64 = if parallel_max == 0 {
        1
    } else {
        parallel_max as u64
    };
    out.push("-sS".to_owned());
    out.push("--fail".to_owned());
    out.push("--max-time".to_owned());
    out.push(number(secs));
    out.push("--parallel".to_owned());
    out.push("--parallel-max".to_owned());
    out.push(number(parallel));
    let ghost head = texts(out@);
    assert(head =~= seq![
        "-sS"@,
        "--fail"@,
        "--max-time"@,
        decimal(one_at_least(timeout_secs as nat)),
        "--parallel"@,
        "--parallel-max"@,
        decimal(one_at_least(parallel_max as nat)),
    ]);
    assert(texts(out@) =~= head + file_args(items@, 0));
    for i in 0..items.len()
        invariant
            texts(out@) == head + file_args(items@, i as int),
    {
        let ghost before = texts(out@);
        out.push("-o".to_owned());
        out.push(items[i].path.clone());
        out.push(items[i].url.clone());
        proof {
            let new = seq!["-o"@, items@[i as int].path@, items@[i as int].url@];
            assert(texts(out@) =~= before + new);
            assert(before + new =~= head + (file_args(items@, i as int) + new));
        }
    }
    out
}

proof fn lemma_file_args_prefix(a: Seq<Download>, b: Seq<Download>, n: int)
    requires
        0 <= n <= a.len(),
    ensures
        file_args(a + b, n) == file_args(a, n),
    decreases n,
{
    if n > 0 {
        lemma_file_args_prefix(a, b, n - 1);
        assert((a + b)[n - 1] == a[n - 1]);
    }
}

/// The arguments for two lists of files, one after the other, are those for both.
pub proof fn law_file_lists_join(a: Seq<Download>, b: Seq<Download>)
    ensures
        file_args(a + b, (a + b).len() as int) == file_args(a, a.len() as int) + file_args(
            b,
            b.len() as int,
        ),
    decreases b.len(),
{
    let n = b.len() as int;
    if n == 0 {
        assert(a + b =~= a);
        assert(file_args(a, a.len() as int) + file_args(b, 0) =~= file_args(a, a.len() as int));
    } else {
        let c = b.drop_last();
        let end = seq![b.last()];
        law_file_lists_join(a, c);
        assert(a + b =~= (a + c) + end);
        assert(b =~= c + end);
        lemma_file_args_prefix(a + c, end, a.len() + n - 1);
        lemma_file_args_prefix(c, end, n - 1);
        assert((a + b)[a.len() + n - 1] == b[n - 1]);
        assert(file_args(a + b, (a + b).len() as int) =~= file_args(a, a.len() as int) + file_args(
            b,
            n,
        ));
    }
}

/// Each file is written to its own path from its own address.
pub proof fn law_file_goes_to_its_path(item: Download)
    ensures
        file_args(seq![item], 1) == seq!["-o"@, item.path@, item.url@],
{
    reveal_with_fuel(file_args, 2);
    assert(file_args(seq![item], 1) =~= seq!["-o"@, item.path@, item.url@]);
}

/// A run fetches every file of its list, gives up after its time, and is at least given a
/// second and one transfer. Without files nothing is run.
pub proof fn law_run_fetches_every_file(items: Seq<Download>, secs: nat, parallel: nat, i: int)
    requires
        0 <= i < items.len(),
    ensures
        fetch_args(Seq::<Download>::empty(), secs, parallel).len() == 0,
        fetch_args(items, secs, parallel).len() == 7 + 3 * items.len(),
        fetch_args(items, secs, parallel)[2] == "--max-time"@,
        secs > 0 ==> fetch_args(items, secs, parallel)[3] == decimal(secs),
        secs == 0 ==> fetch_args(items, secs, parallel)[3] == decimal(1),
        fetch_args(items, secs, parallel)[5] == "--parallel-max"@,
        parallel > 0 ==> fetch_args(items, secs, parallel)[6] == decimal(parallel),
        parallel == 0 ==> fetch_args(items, secs, parallel)[6] == decimal(1),
        fetch_args(items, secs, parallel)[7 + 3 * i] == "-o"@,
        fetch_args(items, secs, parallel)[7 + 3 * i + 1] == items[i].path@,
        fetch_args(items, secs, parallel)[7 + 3 * i + 2] == items[i].url@,
{
    lemma_file_places(items, items.len() as int, i);
}

proof fn lemma_file_places(items: Seq<Download>, n: int, i: int)
    requires
        0 <= n <= items.len(),
    ensures
        file_args(items, n).len() == 3 * n,
        0 <= i < n ==> file_args(items, n)[3 * i] == "-o"@ && file_args(items, n)[3 * i + 1]
            == items[i].path@ && file_args(items, n)[3 * i + 2] == items[i].url@,
    decreases n,
{
    if n > 0 {
        lemma_file_places(items, n - 1, i);
    }
}

} // verus!
