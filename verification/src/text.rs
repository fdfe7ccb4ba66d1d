use vstd::prelude::*;
use vstd::string::StringExecFns;

verus! {

/// An owned copy of a borrowed string.
pub fn string_of(s: &str) -> (r: String)
    ensures
        r@ == s@,
{
    <String as StringExecFns>::from_str(s)
}

/// The decimal text of an integer; a function of the value alone.
pub uninterp spec fn digits_of(n: int) -> Seq<char>;

/// Relies on i32::to_string for the decimal rendering of a number; the
/// result depends on the value alone.
#[verifier::external_body]
pub fn int_to_string(n: i32) -> (r: String)
    ensures
        r@ == digits_of(n as int),
{
    n.to_string()
}

/// `{attacker} is unable to hurt {target}`
pub open spec fn melee_miss_text(attacker: Seq<char>, target: Seq<char>) -> Seq<char> {
    attacker + " is unable to hurt "@ + target
}

pub fn melee_miss_msg(attacker: &str, target: &str) -> (r: String)
    ensures
        r@ == melee_miss_text(attacker@, target@),
{
    string_of(attacker).concat(" is unable to hurt ").concat(target)
}

/// `{attacker} is hits {target}, for {damage} hp.`
pub open spec fn melee_hit_text(attacker: Seq<char>, target: Seq<char>, damage: int) -> Seq<
    char,
> {
    attacker + " is hits "@ + target + ", for "@ + digits_of(damage) + " hp."@
}

pub fn melee_hit_msg(attacker: &str, target: &str, damage: i32) -> (r: String)
    ensures
        r@ == melee_hit_text(attacker@, target@, damage as int),
{
    let d = int_to_string(damage);
    string_of(attacker).concat(" is hits ").concat(target).concat(", for ").concat(
        d.as_str(),
    ).concat(" hp.")
}

/// `{name} died.`
pub open spec fn died_text(name: Seq<char>) -> Seq<char> {
    name + " died."@
}

pub fn died_msg(name: &str) -> (r: String)
    ensures
        r@ == died_text(name@),
{
    string_of(name).concat(" died.")
}

/// `You pick up the {name}.`
pub open spec fn pickup_text(name: Seq<char>) -> Seq<char> {
    "You pick up the "@ + name + "."@
}

pub fn pickup_msg(name: &str) -> (r: String)
    ensures
        r@ == pickup_text(name@),
{
    string_of("You pick up the ").concat(name).concat(".")
}

/// `You drink the {name}, healing {amount}, hp`
pub open spec fn drink_text(name: Seq<char>, amount: int) -> Seq<char> {
    "You drink the "@ + name + ", healing "@ + digits_of(amount) + ", hp"@
}

pub fn drink_msg(name: &str, amount: i32) -> (r: String)
    ensures
        r@ == drink_text(name@, amount as int),
{
    let d = int_to_string(amount);
    string_of("You drink the ").concat(name).concat(", healing ").concat(d.as_str()).concat(
        ", hp",
    )
}

/// `You use {item} on {target}, inflicting {damage} hp.`
pub open spec fn inflict_text(item: Seq<char>, target: Seq<char>, damage: int) -> Seq<char> {
    "You use "@ + item + " on "@ + target + ", inflicting "@ + digits_of(damage) + " hp."@
}

pub fn inflict_msg(item: &str, target: &str, damage: i32) -> (r: String)
    ensures
        r@ == inflict_text(item@, target@, damage as int),
{
    let d = int_to_string(damage);
    string_of("You use ").concat(item).concat(" on ").concat(target).concat(
        ", inflicting ",
    ).concat(d.as_str()).concat(" hp.")
}

/// `You use {item} on {target}, confusing them.`
pub open spec fn confuse_text(item: Seq<char>, target: Seq<char>) -> Seq<char> {
    "You use "@ + item + " on "@ + target + ", confusing them."@
}

pub fn confuse_msg(item: &str, target: &str) -> (r: String)
    ensures
        r@ == confuse_text(item@, target@),
{
    string_of("You use ").concat(item).concat(" on ").concat(target).concat(", confusing them.")
}

/// `You drop the {name}.`
pub open spec fn drop_text(name: Seq<char>) -> Seq<char> {
    "You drop the "@ + name + "."@
}

pub fn drop_msg(name: &str) -> (r: String)
    ensures
        r@ == drop_text(name@),
{
    string_of("You drop the ").concat(name).concat(".")
}

} // verus!
