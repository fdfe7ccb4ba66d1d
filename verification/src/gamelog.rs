use vstd::prelude::*;
use crate::text::string_of;

verus! {

/// The running message log shown to the player.
pub struct GameLog {
    pub entries: Vec<String>,
}

impl GameLog {
    /// A fresh log holding only the greeting line.
    pub fn new() -> (r: GameLog)
        ensures
            r.entries@.len() == 1,
            r.entries@[0]@ == "Hello to DF"@,
    {
        let mut entries: Vec<String> = Vec::new();
        entries.push(string_of("Hello to DF"));
        GameLog { entries }
    }

    /// Append one message.
    pub fn log(&mut self, message: String)
        ensures
            final(self).entries@ == old(self).entries@.push(message),
    {
        self.entries.push(message);
    }
}

} // verus!
