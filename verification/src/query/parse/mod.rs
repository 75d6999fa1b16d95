pub mod error;
pub mod lex;
pub mod parser;
pub mod text;

pub use error::{Error, ParseError};
pub use lex::{Ident, Keyword, Lexer, Lit, Symbol, Token};
pub use parser::{Parse, ParseBuffer, Peek, TokenStream};
