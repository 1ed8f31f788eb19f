//! Selection of the host for each attempt: round robin over the candidate
//! list, passing over the hosts that the request has tried already.

use vstd::prelude::*;

verus! {

/// Why no request can be made at all.
#[derive(Clone, Copy, Debug, PartialEq, Eq, Structural)]
pub enum ConfigurationError {
    /// The service has no candidate hosts.
    NoCandidates,
}

/// The `k`-th position in rotation order, counted from the cursor.
pub open spec fn position(cursor: int, n: int, k: int) -> int {
    if cursor + k < n {
        cursor + k
    } else {
        cursor + k - n
    }
}

/// The position after `i` in rotation order.
pub open spec fn successor(i: int, n: int) -> int {
    if i + 1 == n {
        0
    } else {
        i + 1
    }
}

/// Whether host `i` is among those tried.
pub open spec fn visited(tried: Seq<usize>, i: int) -> bool {
    exists|j: int| 0 <= j < tried.len() && tried[j] == i
}

/// Whether the request has tried every one of the `n` hosts.
pub open spec fn all_tried(n: int, tried: Seq<usize>) -> bool {
    forall|i: int| 0 <= i < n ==> visited(tried, i)
}

/// Whether `i` is the host to pick: the first in rotation order from the
/// cursor that the request has not tried, or, where it has tried them all,
/// the host at the cursor.
pub open spec fn chosen(cursor: int, n: int, tried: Seq<usize>, i: int) -> bool {
    if all_tried(n, tried) {
        i == cursor
    } else {
        exists|k: int|
            {
                &&& 0 <= k < n
                &&& i == #[trigger] position(cursor, n, k)
                &&& !visited(tried, i)
                &&& forall|j: int| 0 <= j < k ==> visited(tried, #[trigger] position(cursor, n, j))
            }
    }
}

/// The candidate hosts of a service by their place in its list, and the
/// rotation cursor: the place where the next selection starts to look.
#[derive(Clone, Copy, Debug, PartialEq, Eq, Structural)]
pub struct NodeSelector {
    count: usize,
    cursor: usize,
}

impl NodeSelector {
    /// The number of candidate hosts.
    pub closed spec fn len(&self) -> int {
        self.count as int
    }

    /// The rotation cursor.
    pub closed spec fn cursor(&self) -> int {
        self.cursor as int
    }

    /// The cursor points into the list, or the list is empty.
    pub open spec fn wf(&self) -> bool {
        0 <= self.cursor() && (self.cursor() < self.len() || (self.len() == 0 && self.cursor()
            == 0))
    }

    /// A selector over `count` hosts whose rotation starts at `start`, taken
    /// round the list.
    pub fn new(count: usize, start: usize) -> (s: NodeSelector)
        ensures
            s.wf(),
            s.len() == count,
            count > 0 ==> s.cursor() == start % count,
    {
        let cursor: usize = if count == 0 {
            0
        } else {
            start % count
        };
        NodeSelector { count, cursor }
    }

    /// The number of candidate hosts.
    pub fn count(&self) -> (n: usize)
        ensures
            n == self.len(),
    {
        self.count
    }

    /// Chooses the host for the next attempt of a request that has tried the
    /// hosts in `tried`, and moves the cursor behind the chosen host.
    ///
    /// A host that the request has tried is chosen only if it has tried them
    /// all. With no candidates the selection fails.
    pub fn select(&mut self, tried: &Vec<usize>) -> (r: Result<usize, ConfigurationError>)
        requires
            old(self).wf(),
        ensures
            final(self).wf(),
            final(self).len() == old(self).len(),
            match r {
                Ok(i) => {
                    &&& 0 <= i < old(self).len()
                    &&& chosen(old(self).cursor(), old(self).len(), tried@, i as int)
                    &&& !all_tried(old(self).len(), tried@) ==> !visited(tried@, i as int)
                    &&& final(self).cursor() == successor(i as int, old(self).len())
                },
                Err(e) => {
                    &&& old(self).len() == 0
                    &&& e == ConfigurationError::NoCandidates
                    &&& final(self).cursor() == old(self).cursor()
                },
            },
    {
        let n: usize = self.count;
        let cursor: usize = self.cursor;
        if n == 0 {
            return Err(ConfigurationError::NoCandidates);
        }
        let mut k: usize = 0;
        while k < n
            invariant
                0 <= k <= n,
                cursor < n,
                n == self.count,
                cursor == self.cursor,
                *self == *old(self),
                forall|j: int|
                    0 <= j < k ==> visited(tried@, #[trigger] position(cursor as int, n as int, j)),
            decreases n - k,
        {
            let i: usize = if k < n - cursor {
                cursor + k
            } else {
                k - (n - cursor)
            };
            assert(i == position(cursor as int, n as int, k as int));
            if !was_tried(tried, i) {
                self.cursor = if i + 1 == n {
                    0
                } else {
                    i + 1
                };
                return Ok(i);
            }
            k = k + 1;
        }
        proof {
            assert forall|i: int| 0 <= i < n implies visited(tried@, i) by {
                let k = if i >= cursor {
                    i - cursor
                } else {
                    i + n - cursor
                };
                assert(position(cursor as int, n as int, k) == i);
            }
        }
        self.cursor = if cursor + 1 == n {
            0
        } else {
            cursor + 1
        };
        Ok(cursor)
    }
}

/// Whether host `i` is among those tried.
pub fn was_tried(tried: &Vec<usize>, i: usize) -> (b: bool)
    ensures
        b == visited(tried@, i as int),
{
    let mut j: usize = 0;
    while j < tried.len()
        invariant
            0 <= j <= tried.len(),
            forall|m: int| 0 <= m < j ==> tried@[m] != i,
        decreases tried.len() - j,
    {
        if tried[j] == i {
            return true;
        }
        j = j + 1;
    }
    false
}

/// Selection never repeats a host while an untried one remains: whatever is
/// chosen for a request that has not tried every host is a host that it has
/// not tried.
pub proof fn lemma_choice_is_untried(cursor: int, n: int, tried: Seq<usize>, i: int)
    requires
        0 <= cursor < n,
        chosen(cursor, n, tried, i),
        exists|u: int| 0 <= u < n && !visited(tried, u),
    ensures
        0 <= i < n,
        !visited(tried, i),
{
}

/// Every place of the list is some position in rotation order.
proof fn lemma_positions_cover(cursor: int, n: int, i: int)
    requires
        0 <= cursor < n,
        0 <= i < n,
    ensures
        exists|k: int| 0 <= k < n && #[trigger] position(cursor, n, k) == i,
{
    let k = if i >= cursor {
        i - cursor
    } else {
        i + n - cursor
    };
    assert(position(cursor, n, k) == i);
}

/// From position `k` on there is a first untried host, if all positions
/// before `k` are tried and not all hosts are.
proof fn lemma_first_untried(cursor: int, n: int, tried: Seq<usize>, k: int)
    requires
        0 <= cursor < n,
        0 <= k <= n,
        !all_tried(n, tried),
        forall|j: int| 0 <= j < k ==> visited(tried, #[trigger] position(cursor, n, j)),
    ensures
        exists|i: int| 0 <= i < n && chosen(cursor, n, tried, i),
    decreases n - k,
{
    if k == n {
        assert forall|i: int| 0 <= i < n implies visited(tried, i) by {
            lemma_positions_cover(cursor, n, i);
        }
    } else if visited(tried, position(cursor, n, k)) {
        lemma_first_untried(cursor, n, tried, k + 1);
    } else {
        assert(chosen(cursor, n, tried, position(cursor, n, k)));
    }
}

/// There always is a host to pick where there is a host at all.
pub proof fn lemma_choice_exists(cursor: int, n: int, tried: Seq<usize>)
    requires
        0 <= cursor < n,
    ensures
        exists|i: int| 0 <= i < n && chosen(cursor, n, tried, i),
{
    if all_tried(n, tried) {
        assert(chosen(cursor, n, tried, cursor));
    } else {
        lemma_first_untried(cursor, n, tried, 0);
    }
}

/// At most one host is the one to pick.
pub proof fn lemma_choice_is_unique(cursor: int, n: int, tried: Seq<usize>, i: int, j: int)
    requires
        0 <= cursor < n,
        chosen(cursor, n, tried, i),
        chosen(cursor, n, tried, j),
    ensures
        i == j,
{
    if !all_tried(n, tried) {
        let ki = choose|k: int|
            {
                &&& 0 <= k < n
                &&& i == #[trigger] position(cursor, n, k)
                &&& !visited(tried, i)
                &&& forall|m: int| 0 <= m < k ==> visited(tried, #[trigger] position(cursor, n, m))
            };
        let kj = choose|k: int|
            {
                &&& 0 <= k < n
                &&& j == #[trigger] position(cursor, n, k)
                &&& !visited(tried, j)
                &&& forall|m: int| 0 <= m < k ==> visited(tried, #[trigger] position(cursor, n, m))
            };
        if ki < kj {
            assert(visited(tried, position(cursor, n, ki)));
        } else if kj < ki {
            assert(visited(tried, position(cursor, n, kj)));
        }
    }
}

} // verus!
