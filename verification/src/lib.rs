//! A command-line front end for the fjall key-value store, written as a
//! verified library: the commands decide what the database answers and render the
//! bytes they write to standard output here, and the program around them parses the command
//! line, opens the database, reads path-encoded arguments and writes the output.

pub mod bytes;
pub mod command;
pub mod hex_codec;
pub mod laws;
pub mod output_laws;
pub mod std_types;
pub mod storage;
pub mod types;

pub use command::{
    ArgFiles, ClearCommand, ClearCommandRunError, Command, CommandOutput, CommandRunError,
    ContainsCommand, ContainsCommandDecodeKeyBytesError, ContainsCommandRunError, DeleteCommand,
    DeleteCommandRunError, DiskSizeCommand, DiskSizeCommandRunError, GetCommand,
    GetCommandRunError, InsertCommand, InsertCommandRunError, IterCommand, IterCommandRunError,
    IterCommandWriteItemError, IterCommandWriteItemsError, KeyspaceCommand,
    KeyspaceCommandRunError, KeyspaceCountCommand, KeyspaceCountCommandRunError,
    KeyspaceListCommand, KeyspaceListCommandRunError, KeyspaceSubcommand, LenCommand,
    LenCommandRunError, ListCommand, ListCommandRunError, ListCommandWriteItemError,
    ListCommandWriteItemsError, ListKeyspaceNamesCommand, ListKeyspaceNamesCommandRunError,
    Subcommand, SubcommandRunError,
};
pub use hex_codec::HexError;
pub use types::{
    ByteEncoding, ByteEncodingDecodeError, OutputAffixes, OutputKind, OutputKindWriteError,
    PathRead, PrefixKind, Separator, SeparatorParseError, Suffix,
};
