//! What the operations of the library are for, as relations between what goes
//! into a call and what comes out of it, and between calls.
//!
//! A call is spoken of by `call_ensures`: whatever a function may return for its
//! arguments has the property that the law states.

pub mod answers;
pub mod expiries;
pub mod exports;
pub mod imports;
pub mod lookup;
pub mod servings;
pub mod text;
