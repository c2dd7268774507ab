//! Firefox stores cookie values in plaintext: reading is a filter over the
//! rows of `moz_cookies`.

use vstd::prelude::*;

use crate::cookies::is_youtube_host;
use crate::login::{youtube_domain, CookiePair};

verus! {

/// One row of `moz_cookies`: host, name, value.
pub type FirefoxRow = (String, String, String);

/// The cookies of `rows` that are imported: YouTube hosts, non-empty names,
/// as (name, value), in row order.
pub open spec fn firefox_pairs(rows: Seq<FirefoxRow>) -> Seq<CookiePair>
    decreases rows.len(),
{
    if rows.len() == 0 {
        Seq::empty()
    } else {
        let prev = firefox_pairs(rows.drop_last());
        let r = rows.last();
        if youtube_domain(r.0@) && r.1@.len() > 0 {
            prev.push((r.1@, r.2@))
        } else {
            prev
        }
    }
}

/// Keep the YouTube cookies of the `(host, name, value)` rows read from a
/// Firefox cookie database.
pub fn read(rows: Vec<FirefoxRow>) -> (r: Vec<(String, String)>)
    ensures
        crate::login::string_pairs_view(r@) == firefox_pairs(rows@),
{
    let ghost all = rows@;
    let mut rows = rows;
    let mut out: Vec<(String, String)> = Vec::new();
    let mut k: usize = 0;
    let n = rows.len();
    let mut rest: Vec<FirefoxRow> = Vec::new();
    std::mem::swap(&mut rest, &mut rows);
    proof {
        assert(rest@.skip(0) =~= all);
    }
    while k < n
        invariant
            k <= n,
            n == all.len(),
            rest@ == all.skip(k as int),
            crate::login::string_pairs_view(out@) == firefox_pairs(all.take(k as int)),
        decreases n - k,
    {
        let row = rest.remove(0);
        proof {
            assert(row == all[k as int]);
            assert(rest@ =~= all.skip(k + 1));
            assert(all.take(k + 1).drop_last() =~= all.take(k as int));
            assert(all.take(k + 1).last() == row);
        }
        let (host, name, value) = row;
        if is_youtube_host(host.as_str()) && name.as_str().unicode_len() > 0 {
            out.push((name, value));
            proof {
                assert(crate::login::string_pairs_view(out@) =~= firefox_pairs(all.take(k as int)).push(
                    (row.1@, row.2@),
                ));
            }
        }
        k = k + 1;
    }
    proof {
        assert(all.take(n as int) =~= all);
    }
    out
}

} // verus!
