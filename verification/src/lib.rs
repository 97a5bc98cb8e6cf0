//! Event-dispatch core for a synchronously polled service queue.

use vstd::prelude::*;
use vstd::string::*;

pub mod drain;
pub mod event;
pub mod friends;
pub mod registry;
pub mod steam_api;
pub mod utils;

verus! {

/// Small integer tag naming a kind of event.
pub type CallbackId = i32;

/// Correlation token the service hands out when an asynchronous call starts.
pub type CallHandle = u64;

/// Identifies an application known to the service.
#[derive(Clone, Copy, Debug, PartialEq, Eq, Structural)]
pub struct AppId(pub u32);

impl From<u32> for AppId {
    fn from(id: u32) -> (app: Self) {
        AppId(id)
    }
}

impl vstd::std_specs::convert::FromSpecImpl<u32> for AppId {
    open spec fn obeys_from_spec() -> bool {
        true
    }

    open spec fn from_spec(id: u32) -> Self {
        AppId(id)
    }
}

/// Identifies an account with the service.
#[derive(Clone, Copy, Debug, PartialEq, Eq, PartialOrd, Hash, Structural)]
pub struct SteamId(pub u64);

/// The character that stands for the digit `d`.
pub open spec fn digit(d: nat) -> char {
    if d == 0 {
        '0'
    } else if d == 1 {
        '1'
    } else if d == 2 {
        '2'
    } else if d == 3 {
        '3'
    } else if d == 4 {
        '4'
    } else if d == 5 {
        '5'
    } else if d == 6 {
        '6'
    } else if d == 7 {
        '7'
    } else if d == 8 {
        '8'
    } else {
        '9'
    }
}

/// The digits of `n` in base ten, most significant first, without leading
/// zeros.
pub open spec fn decimal(n: nat) -> Seq<char>
    decreases n,
{
    if n < 10 {
        seq![digit(n)]
    } else {
        decimal(n / 10).push(digit(n % 10))
    }
}

/// The one-character text of a digit.
fn digit_text(d: u64) -> (text: &'static str)
    requires
        d < 10,
    ensures
        text@ == seq![digit(d as nat)],
{
    proof {
        reveal_strlit("0");
        reveal_strlit("1");
        reveal_strlit("2");
        reveal_strlit("3");
        reveal_strlit("4");
        reveal_strlit("5");
        reveal_strlit("6");
        reveal_strlit("7");
        reveal_strlit("8");
        reveal_strlit("9");
    }
    let text = if d == 0 {
        "0"
    } else if d == 1 {
        "1"
    } else if d == 2 {
        "2"
    } else if d == 3 {
        "3"
    } else if d == 4 {
        "4"
    } else if d == 5 {
        "5"
    } else if d == 6 {
        "6"
    } else if d == 7 {
        "7"
    } else if d == 8 {
        "8"
    } else {
        "9"
    };
    assert(text@ =~= seq![digit(d as nat)]);
    text
}

impl SteamId {
    /// The id as it is printed: its number in base ten.
    pub fn to_text(&self) -> (text: String)
        ensures
            text@ == decimal(self.0 as nat),
    {
        let mut low: Vec<u64> = Vec::new();
        let mut rest: u64 = self.0;
        let ghost mut quotients: Seq<nat> = seq![self.0 as nat];
        while rest >= 10
            invariant
                quotients.len() == low.len() + 1,
                quotients[0] == self.0,
                quotients.last() == rest,
                forall|i: int|
                    0 <= i < low.len() ==> #[trigger] low[i] == quotients[i] % 10 && quotients[i]
                        >= 10 && quotients[i + 1] == quotients[i] / 10,
            decreases rest,
        {
            let ghost before = quotients;
            let ghost digits = low@;
            low.push(rest % 10);
            rest = rest / 10;
            proof {
                quotients = quotients.push(rest as nat);
                assert forall|i: int| 0 <= i < low.len() implies #[trigger] low[i] == quotients[i]
                    % 10 && quotients[i] >= 10 && quotients[i + 1] == quotients[i] / 10 by {
                    if i < digits.len() {
                        assert(low[i] == digits[i]);
                        assert(quotients[i] == before[i] && quotients[i + 1] == before[i + 1]);
                    }
                }
            }
        }
        let mut text = String::from_str(digit_text(rest));
        let mut left: usize = low.len();
        assert(text@ =~= decimal(quotients[left as int]));
        while left > 0
            invariant
                left <= low.len(),
                quotients.len() == low.len() + 1,
                text@ == decimal(quotients[left as int]),
                forall|i: int|
                    0 <= i < low.len() ==> #[trigger] low[i] == quotients[i] % 10 && quotients[i]
                        >= 10 && quotients[i + 1] == quotients[i] / 10,
            decreases left,
        {
            left = left - 1;
            let d = low[left];
            assert(low[left as int] == quotients[left as int] % 10 && quotients[left + 1]
                == quotients[left as int] / 10);
            text.append(digit_text(d));
            assert(text@ =~= decimal(quotients[left as int]));
        }
        text
    }
}

} // verus!
