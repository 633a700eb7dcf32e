//! The integer rules of the floret hangout that client and server share:
//! when a silent player's stick goes back to centre, how held keys become a
//! direction, which input device wins, and the one-shot "go to the middle"
//! button.

pub mod input;
pub mod server;
pub mod ui;
