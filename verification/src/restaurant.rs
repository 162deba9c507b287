//! The restaurant: front-of-house service steps and back-of-house dishes.
//! Each service step reports what it did as a message for the caller to show.
use vstd::prelude::*;
use vstd::string::StringExecFns;

verus! {

/// Seats the guest and reports it.
fn seat_at_table() -> (r: String)
    ensures
        r@ == "安排座位"@,
{
    String::from_str("安排座位")
}

/// Puts the guest on the waitlist, which seats them at a table.
pub fn add_to_waitlist() -> (r: String)
    ensures
        r@ == "安排座位"@,
{
    seat_at_table()
}

/// Takes the order and reports it.
pub fn take_order() -> (r: String)
    ensures
        r@ == "记录订单"@,
{
    String::from_str("记录订单")
}

/// Serves the food and reports it.
pub fn serve_order() -> (r: String)
    ensures
        r@ == "提供食物"@,
{
    String::from_str("提供食物")
}

/// Collects the payment and reports it.
pub fn take_payment() -> (r: String)
    ensures
        r@ == "收取付款"@,
{
    String::from_str("收取付款")
}

/// A breakfast: the toast is the guest's choice, the seasonal fruit is the
/// kitchen's.
pub struct Breakfast {
    pub toast: String,
    seasonal_fruit: String,
}

impl Breakfast {
    /// The toast this breakfast comes with. A datatype with a private field
    /// is opaque outside its module, so contracts name the toast through
    /// this accessor rather than through the field.
    pub closed spec fn spec_toast(&self) -> Seq<char> {
        self.toast@
    }

    /// The fruit this breakfast comes with.
    pub closed spec fn spec_fruit(&self) -> Seq<char> {
        self.seasonal_fruit@
    }

    /// A breakfast with the chosen toast; the kitchen picks blueberries.
    pub fn new(toast: String) -> (r: Breakfast)
        ensures
            r.spec_toast() == toast@,
            r.spec_fruit() == "蓝莓"@,
    {
        Breakfast { toast, seasonal_fruit: String::from_str("蓝莓") }
    }

    /// The seasonal fruit, readable but not settable by the guest.
    pub fn fruit(&self) -> (r: &str)
        ensures
            r@ == self.spec_fruit(),
    {
        self.seasonal_fruit.as_str()
    }
}

/// Appetizers on the menu.
pub enum Appetizer {
    Soup,
    Salad,
}

impl Appetizer {
    /// Places the order and reports which appetizer was ordered.
    pub fn order(self) -> (r: String)
        ensures
            self is Soup ==> r@ == "一份汤被点了"@,
            self is Salad ==> r@ == "一份沙拉被点了"@,
    {
        match self {
            Appetizer::Soup => String::from_str("一份汤被点了"),
            Appetizer::Salad => String::from_str("一份沙拉被点了"),
        }
    }
}

} // verus!
