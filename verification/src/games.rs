//! Registry consumers: coin flip, slots and the shop.
//!
//! Each operation is a single read-modify-write against the registry,
//! refused before any mutation when the student is missing or the balance
//! cannot cover the request. The random draws come from outside; every
//! settlement is a function of the drawn values and is verified for every
//! possible draw.

use vstd::prelude::*;
use rand::Rng;
use crate::student::{Student, StudentView};
use crate::level::{LevelSystem, spec_level_for};
use crate::numparse::{dec_rep, u32_to_decimal};
use crate::registry::{Registry, StudentEntry, lemma_entries_map_index, lemma_entries_map_update};

verus! {

/// Why a game or shop request was refused before touching the balance.
#[derive(Clone, Copy, Debug, PartialEq, Eq, Structural)]
pub enum GameError {
    NotFound,
    InvalidItem,
    QuantityExceeded,
    InsufficientFunds,
}

#[derive(Debug)]
pub struct CoinFlipResult {
    pub result: String,
    pub won: bool,
    pub coins_won: u32,
    pub coins_lost: u32,
    pub new_balance: u32,
}

#[derive(Debug)]
pub struct SlotsResult {
    pub won: bool,
    pub symbols: Vec<String>,
    pub new_balance: u32,
    pub payout: u32,
    pub amount_wagered: u32,
    pub win_type: Option<String>,
}

#[derive(Debug)]
pub struct PurchaseResult {
    pub success: bool,
    pub message: String,
    pub coins_spent: u32,
    pub new_balance: u32,
    pub item_received: String,
    pub quantity: u32,
}

/// Relies on `rand::rngs::ThreadRng` and `rand::Rng::gen` on `bool`: a
/// random draw; nothing can be promised of the outcome.
#[verifier::external_body]
fn flip_coin() -> bool {
    let b: bool = rand::thread_rng().gen();
    b
}

/// Relies on `rand::Rng::gen_range`: the result lies within the given
/// nonempty range; nothing else can be promised of the outcome.
#[verifier::external_body]
fn draw_symbol() -> (r: usize)
    ensures
        r < 8,
{
    rand::thread_rng().gen_range(0..8)
}

impl Registry {
    /// Overwrite the record stored at position `i`, keeping its key.
    fn set_student_at(&mut self, i: usize, student: Student)
        requires
            old(self).wf(),
            i < old(self).entries@.len(),
            student.wf(),
        ensures
            final(self).wf(),
            final(self)@ == old(self)@.insert(old(self).entries@[i as int].username@, student@),
    {
        let username = self.entries[i].username.clone();
        let e = StudentEntry { username, student };
        proof {
            lemma_entries_map_update(self.entries@, i as int, e);
            assert forall|a: int, b: int|
                0 <= a < b < self.entries@.update(i as int, e).len()
                implies #[trigger] self.entries@.update(i as int, e)[a].username@
                    != #[trigger] self.entries@.update(i as int, e)[b].username@
            by {
                assert(self.entries@[a].username@ != self.entries@[b].username@);
            }
        }
        self.entries[i] = e;
    }

    /// Settle a coin flip whose outcome has already been drawn: the stake
    /// is refused when it exceeds the balance, a win pays twice the stake,
    /// a loss costs the stake.
    pub fn settle_coinflip(
        &mut self,
        username: &String,
        bet: u32,
        choice_heads: bool,
        flip_heads: bool,
    ) -> (r: Result<CoinFlipResult, GameError>)
        requires
            old(self).wf(),
            old(self)@.contains_key(username@) && old(self)@[username@].coins >= bet
                ==> old(self)@[username@].coins + 2 * bet <= u32::MAX,
        ensures
            final(self).wf(),
            !old(self)@.contains_key(username@)
                ==> r == Err::<CoinFlipResult, GameError>(GameError::NotFound)
                    && final(self)@ == old(self)@,
            old(self)@.contains_key(username@) && old(self)@[username@].coins < bet
                ==> r == Err::<CoinFlipResult, GameError>(GameError::InsufficientFunds)
                    && final(self)@ == old(self)@,
            old(self)@.contains_key(username@) && old(self)@[username@].coins >= bet ==> ({
                let won = choice_heads == flip_heads;
                let coins = old(self)@[username@].coins;
                let nb = if won { coins + 2 * bet } else { coins - bet };
                &&& r matches Ok(res)
                    && res.won == won
                    && res.new_balance == nb
                    && res.coins_won == (if won { 2 * (bet as int) } else { 0 })
                    && res.coins_lost == (if won { 0int } else { bet as int })
                    && res.result@ == (if flip_heads { "heads"@ } else { "tails"@ })
                &&& final(self)@ == old(self)@.insert(
                    username@,
                    (StudentView { coins: nb, ..old(self)@[username@] }),
                )
            }),
    {
        match self.find_index(username) {
            None => Err(GameError::NotFound),
            Some(i) => {
                proof {
                    lemma_entries_map_index(self.entries@, i as int);
                }
                let coins = self.entries[i].student.coins;
                if coins < bet {
                    return Err(GameError::InsufficientFunds);
                }
                let won = choice_heads == flip_heads;
                let coins_won: u32 = if won { 2 * bet } else { 0 };
                let coins_lost: u32 = if won { 0 } else { bet };
                let nb: u32 = if won { coins + 2 * bet } else { coins - bet };
                let mut st = self.entries[i].student.clone();
                st.coins = nb;
                self.set_student_at(i, st);
                Ok(CoinFlipResult {
                    result: if flip_heads {
                        String::from_str("heads")
                    } else {
                        String::from_str("tails")
                    },
                    won,
                    coins_won,
                    coins_lost,
                    new_balance: nb,
                })
            },
        }
    }

    /// Flip the coin and settle the bet. Which side comes up is random;
    /// whatever it is, the balance moves exactly as the settlement says.
    pub fn play_coinflip(&mut self, username: &String, bet: u32, choice_heads: bool) -> (r:
        Result<CoinFlipResult, GameError>)
        requires
            old(self).wf(),
            old(self)@.contains_key(username@) && old(self)@[username@].coins >= bet
                ==> old(self)@[username@].coins + 2 * bet <= u32::MAX,
        ensures
            final(self).wf(),
            !old(self)@.contains_key(username@)
                ==> r == Err::<CoinFlipResult, GameError>(GameError::NotFound)
                    && final(self)@ == old(self)@,
            old(self)@.contains_key(username@) && old(self)@[username@].coins < bet
                ==> r == Err::<CoinFlipResult, GameError>(GameError::InsufficientFunds)
                    && final(self)@ == old(self)@,
            old(self)@.contains_key(username@) && old(self)@[username@].coins >= bet ==> ({
                let coins = old(self)@[username@].coins;
                r matches Ok(res)
                    && (res.result@ == "heads"@ || res.result@ == "tails"@)
                    && res.won == (if choice_heads {
                        res.result@ == "heads"@
                    } else {
                        res.result@ == "tails"@
                    })
                    && res.new_balance == (if res.won { coins + 2 * bet } else { coins - bet })
                    && res.coins_won == (if res.won { 2 * (bet as int) } else { 0 })
                    && res.coins_lost == (if res.won { 0int } else { bet as int })
                    && final(self)@ == old(self)@.insert(
                        username@,
                        (StudentView {
                            coins: (if res.won { coins + 2 * bet } else { coins - bet }),
                            ..old(self)@[username@]
                        }),
                    )
            }),
    {
        let flip = flip_coin();
        let r = self.settle_coinflip(username, bet, choice_heads, flip);
        proof {
            reveal_strlit("heads");
            reveal_strlit("tails");
            assert("heads"@[0] == 'h' && "tails"@[0] == 't');
        }
        r
    }
}

/// The text of each slot reel symbol, by drawn index.
pub open spec fn spec_slot_symbol(i: int) -> Seq<char> {
    if i == 0 { "IHatePyhisics"@ }
    else if i == 1 { "IDontLikeAlgebra"@ }
    else if i == 2 { "ILikeCounterStrike"@ }
    else if i == 3 { "IHateVisualStudio"@ }
    else if i == 4 { "ILikeSublimeText"@ }
    else if i == 5 { "ILikeCaffeine"@ }
    else if i == 6 { "PythonIsTrash"@ }
    else { "NobodyWillReadThisxD"@ }
}

fn slot_symbol(i: usize) -> (r: String)
    requires
        i < 8,
    ensures
        r@ == spec_slot_symbol(i as int),
{
    if i == 0 { String::from_str("IHatePyhisics") }
    else if i == 1 { String::from_str("IDontLikeAlgebra") }
    else if i == 2 { String::from_str("ILikeCounterStrike") }
    else if i == 3 { String::from_str("IHateVisualStudio") }
    else if i == 4 { String::from_str("ILikeSublimeText") }
    else if i == 5 { String::from_str("ILikeCaffeine") }
    else if i == 6 { String::from_str("PythonIsTrash") }
    else { String::from_str("NobodyWillReadThisxD") }
}

impl Registry {
    /// Settle a slots spin whose three reels have already been drawn:
    /// three equal reels pay ten times the stake, exactly two equal pay
    /// three times, anything else loses the stake.
    pub fn settle_slots(
        &mut self,
        username: &String,
        amount: u32,
        s1: usize,
        s2: usize,
        s3: usize,
    ) -> (r: Result<SlotsResult, GameError>)
        requires
            old(self).wf(),
            s1 < 8,
            s2 < 8,
            s3 < 8,
            old(self)@.contains_key(username@) && old(self)@[username@].coins >= amount
                ==> old(self)@[username@].coins + 10 * amount <= u32::MAX,
        ensures
            final(self).wf(),
            !old(self)@.contains_key(username@)
                ==> r == Err::<SlotsResult, GameError>(GameError::NotFound)
                    && final(self)@ == old(self)@,
            old(self)@.contains_key(username@) && old(self)@[username@].coins < amount
                ==> r == Err::<SlotsResult, GameError>(GameError::InsufficientFunds)
                    && final(self)@ == old(self)@,
            old(self)@.contains_key(username@) && old(self)@[username@].coins >= amount ==> ({
                let three = s1 == s2 && s2 == s3;
                let two = !three && (s1 == s2 || s2 == s3 || s1 == s3);
                let won = three || two;
                let payout: int = if three { 10 * amount } else if two { 3 * amount } else { 0 };
                let coins = old(self)@[username@].coins;
                let nb = if won { coins + payout - amount } else { coins - amount };
                &&& r matches Ok(res)
                    && res.won == won
                    && res.payout == payout
                    && res.amount_wagered == amount
                    && res.new_balance == nb
                    && res.symbols@.len() == 3
                    && res.symbols@[0]@ == spec_slot_symbol(s1 as int)
                    && res.symbols@[1]@ == spec_slot_symbol(s2 as int)
                    && res.symbols@[2]@ == spec_slot_symbol(s3 as int)
                    && (three ==> (res.win_type matches Some(w) && w@ == "3 Iguales"@))
                    && (two ==> (res.win_type matches Some(w) && w@ == "2 Iguales"@))
                    && (!won ==> res.win_type is None)
                &&& final(self)@ == old(self)@.insert(
                    username@,
                    (StudentView { coins: nb, ..old(self)@[username@] }),
                )
            }),
    {
        match self.find_index(username) {
            None => Err(GameError::NotFound),
            Some(i) => {
                proof {
                    lemma_entries_map_index(self.entries@, i as int);
                }
                let coins = self.entries[i].student.coins;
                if coins < amount {
                    return Err(GameError::InsufficientFunds);
                }
                let three = s1 == s2 && s2 == s3;
                let two = !three && (s1 == s2 || s2 == s3 || s1 == s3);
                let won = three || two;
                let payout: u32 = if three {
                    10 * amount
                } else if two {
                    3 * amount
                } else {
                    0
                };
                let nb: u32 = if won { coins + payout - amount } else { coins - amount };
                let win_type: Option<String> = if three {
                    Some(String::from_str("3 Iguales"))
                } else if two {
                    Some(String::from_str("2 Iguales"))
                } else {
                    None
                };
                let mut symbols: Vec<String> = Vec::new();
                symbols.push(slot_symbol(s1));
                symbols.push(slot_symbol(s2));
                symbols.push(slot_symbol(s3));
                let mut st = self.entries[i].student.clone();
                st.coins = nb;
                self.set_student_at(i, st);
                Ok(SlotsResult {
                    won,
                    symbols,
                    new_balance: nb,
                    payout,
                    amount_wagered: amount,
                    win_type,
                })
            },
        }
    }

    /// Spin the three reels and settle the stake. The reels are random;
    /// whatever comes up, the balance moves exactly as the settlement says.
    pub fn play_slots(&mut self, username: &String, amount: u32) -> (r: Result<
        SlotsResult,
        GameError,
    >)
        requires
            old(self).wf(),
            old(self)@.contains_key(username@) && old(self)@[username@].coins >= amount
                ==> old(self)@[username@].coins + 10 * amount <= u32::MAX,
        ensures
            final(self).wf(),
            !old(self)@.contains_key(username@)
                ==> r == Err::<SlotsResult, GameError>(GameError::NotFound)
                    && final(self)@ == old(self)@,
            old(self)@.contains_key(username@) && old(self)@[username@].coins < amount
                ==> r == Err::<SlotsResult, GameError>(GameError::InsufficientFunds)
                    && final(self)@ == old(self)@,
            old(self)@.contains_key(username@) && old(self)@[username@].coins >= amount ==> ({
                let coins = old(self)@[username@].coins;
                r matches Ok(res)
                    && res.amount_wagered == amount
                    && (res.won ==> (res.payout == 10 * (amount as int)
                            || res.payout == 3 * (amount as int))
                        && res.new_balance == coins + res.payout - amount)
                    && (!res.won ==> res.payout == 0 && res.new_balance == coins - amount)
                    && res.symbols@.len() == 3
                    && final(self)@ == old(self)@.insert(
                        username@,
                        (StudentView { coins: res.new_balance as int, ..old(self)@[username@] }),
                    )
            }),
    {
        let s1 = draw_symbol();
        let s2 = draw_symbol();
        let s3 = draw_symbol();
        self.settle_slots(username, amount, s1, s2, s3)
    }
}

/// The refusal shown when the balance cannot cover a purchase.
pub open spec fn spec_insufficient_message(total: nat) -> Seq<char> {
    "Monedas insuficientes. Necesitas "@ + dec_rep(total) + " monedas."@
}

/// The receipt shown after a successful purchase.
pub open spec fn spec_purchase_message(quantity: nat, item: Seq<char>) -> Seq<char> {
    "Has comprado "@ + dec_rep(quantity) + " "@ + item + " exitosamente!"@
}

fn insufficient_message(total: u32) -> (r: String)
    ensures
        r@ == spec_insufficient_message(total as nat),
{
    let mut m = String::from_str("Monedas insuficientes. Necesitas ");
    let d = u32_to_decimal(total);
    m.append(d.as_str());
    m.append(" monedas.");
    m
}

fn purchase_message(quantity: u32, item: &str) -> (r: String)
    ensures
        r@ == spec_purchase_message(quantity as nat, item@),
{
    let mut m = String::from_str("Has comprado ");
    let d = u32_to_decimal(quantity);
    m.append(d.as_str());
    m.append(" ");
    m.append(item);
    m.append(" exitosamente!");
    m
}

impl Registry {
    /// Buy mean boosts or experience. A tenth of a grade point costs 250
    /// coins, at most 10 per purchase; 100 experience points cost 150
    /// coins, at most 20 per purchase. A purchase the balance cannot
    /// cover is reported, not applied.
    pub fn purchase_item(&mut self, username: &String, item_type: &String, quantity: u32) -> (r:
        Result<PurchaseResult, GameError>)
        requires
            old(self).wf(),
            old(self)@.contains_key(username@) && item_type@ == "decimal"@ && quantity <= 10
                && old(self)@[username@].coins >= 250 * quantity ==> ({
                let rec = old(self)@[username@];
                rec.mean + 10 * quantity <= u32::MAX && rec.grades + quantity <= u16::MAX
            }),
            old(self)@.contains_key(username@) && item_type@ == "experience"@ && quantity <= 20
                && old(self)@[username@].coins >= 150 * quantity
                ==> old(self)@[username@].exp + 100 * quantity <= u32::MAX,
        ensures
            final(self).wf(),
            !old(self)@.contains_key(username@)
                ==> r == Err::<PurchaseResult, GameError>(GameError::NotFound)
                    && final(self)@ == old(self)@,
            old(self)@.contains_key(username@) && item_type@ != "decimal"@
                && item_type@ != "experience"@
                ==> r == Err::<PurchaseResult, GameError>(GameError::InvalidItem)
                    && final(self)@ == old(self)@,
            old(self)@.contains_key(username@) && item_type@ == "decimal"@ && quantity > 10
                ==> r == Err::<PurchaseResult, GameError>(GameError::QuantityExceeded)
                    && final(self)@ == old(self)@,
            old(self)@.contains_key(username@) && item_type@ == "experience"@ && quantity > 20
                ==> r == Err::<PurchaseResult, GameError>(GameError::QuantityExceeded)
                    && final(self)@ == old(self)@,
            old(self)@.contains_key(username@) && item_type@ == "decimal"@ && quantity <= 10
                ==> purchase_outcome_ok(old(self)@, final(self)@, r, username@, quantity as int,
                    250, "Décimas"@, 10 * (quantity as int), quantity as int, 0),
            old(self)@.contains_key(username@) && item_type@ == "experience"@ && quantity <= 20
                ==> purchase_outcome_ok(old(self)@, final(self)@, r, username@, quantity as int,
                    150, "Experiencia (100 XP)"@, 0, 0, 100 * (quantity as int)),
    {
        match self.find_index(username) {
            None => Err(GameError::NotFound),
            Some(i) => {
                proof {
                    lemma_entries_map_index(self.entries@, i as int);
                }
                proof {
                    reveal_strlit("decimal");
                    reveal_strlit("experience");
                    assert("decimal"@.len() == 7);
                    assert("experience"@.len() == 10);
                    assert("decimal"@ != "experience"@);
                }
                let decimal = crate::scan::str_eq(item_type.as_str(), "decimal");
                let experience = crate::scan::str_eq(item_type.as_str(), "experience");
                if !decimal && !experience {
                    return Err(GameError::InvalidItem);
                }
                let (price, max_quantity, item_name): (u32, u32, &'static str) = if decimal {
                    (250, 10, "Décimas")
                } else {
                    (150, 20, "Experiencia (100 XP)")
                };
                if quantity > max_quantity {
                    return Err(GameError::QuantityExceeded);
                }
                let total = price * quantity;
                let coins = self.entries[i].student.coins;
                if coins < total {
                    proof {
                        reveal_strlit("");
                        assert(""@ =~= Seq::<char>::empty());
                    }
                    return Ok(PurchaseResult {
                        success: false,
                        message: insufficient_message(total),
                        coins_spent: 0,
                        new_balance: coins,
                        item_received: String::from_str(""),
                        quantity: 0,
                    });
                }
                let mut st = self.entries[i].student.clone();
                st.coins = coins - total;
                if decimal {
                    st.mean = st.mean + 10 * quantity;
                    st.grades = st.grades + (quantity as u16);
                } else {
                    st.exp = st.exp + 100 * quantity;
                    let level_system = LevelSystem;
                    st.level = level_system.level_for_exp(st.exp);
                }
                self.set_student_at(i, st);
                Ok(PurchaseResult {
                    success: true,
                    message: purchase_message(quantity, item_name),
                    coins_spent: total,
                    new_balance: coins - total,
                    item_received: String::from_str(item_name),
                    quantity,
                })
            },
        }
    }
}

/// The two possible outcomes of a priced purchase: refused untouched for
/// lack of coins, or paid and applied, with the exact field movements.
pub open spec fn purchase_outcome_ok(
    pre: Map<Seq<char>, StudentView>,
    post: Map<Seq<char>, StudentView>,
    r: Result<PurchaseResult, GameError>,
    username: Seq<char>,
    quantity: int,
    price: int,
    item: Seq<char>,
    mean_gain: int,
    grades_gain: int,
    exp_gain: int,
) -> bool {
    let rec = pre[username];
    let total = price * quantity;
    if rec.coins < total {
        &&& r matches Ok(res)
            && !res.success
            && res.message@ == spec_insufficient_message(total as nat)
            && res.coins_spent == 0
            && res.new_balance == rec.coins
            && res.item_received@ == Seq::<char>::empty()
            && res.quantity == 0
        &&& post == pre
    } else {
        &&& r matches Ok(res)
            && res.success
            && res.message@ == spec_purchase_message(quantity as nat, item)
            && res.coins_spent == total
            && res.new_balance == rec.coins - total
            && res.item_received@ == item
            && res.quantity == quantity
        &&& post == pre.insert(username, (StudentView {
            coins: rec.coins - total,
            mean: rec.mean + mean_gain,
            grades: rec.grades + grades_gain,
            exp: rec.exp + exp_gain,
            level: (if exp_gain == 0 {
                rec.level
            } else {
                spec_level_for((rec.exp + exp_gain) as nat) as int
            }),
            ..rec
        }))
    }
}

} // verus!
