//! The host operations that web content may call.
//!
//! The set is fixed and small. The controller registers all of them, always;
//! what each one does is not its concern.

use vstd::prelude::*;

verus! {

/// One host operation open to the web content.
#[derive(Clone, Copy, Debug, PartialEq, Eq, Structural)]
pub enum BridgeCommand {
    /// Fetch a resource by URL and store it locally.
    DownloadFile,
    /// Store raw bytes under a chosen file name.
    DownloadFileByBinary,
    /// Hand a URL or path to the platform's default handler.
    Open,
}

impl BridgeCommand {
    /// The name under which web content reaches the operation.
    pub open spec fn name_spec(self) -> Seq<char> {
        match self {
            BridgeCommand::DownloadFile => "download_file"@,
            BridgeCommand::DownloadFileByBinary => "download_file_by_binary"@,
            BridgeCommand::Open => "open"@,
        }
    }

    /// Every operation, in the order of registration.
    pub open spec fn all_spec() -> Seq<BridgeCommand> {
        seq![BridgeCommand::DownloadFile, BridgeCommand::DownloadFileByBinary, BridgeCommand::Open]
    }

    /// The name under which web content reaches the operation.
    pub fn name(&self) -> (name: &'static str)
        ensures
            name@ == self.name_spec(),
    {
        match self {
            BridgeCommand::DownloadFile => "download_file",
            BridgeCommand::DownloadFileByBinary => "download_file_by_binary",
            BridgeCommand::Open => "open",
        }
    }

    /// Every operation, in the order of registration.
    pub fn all() -> (commands: Vec<BridgeCommand>)
        ensures
            commands@ == BridgeCommand::all_spec(),
    {
        let mut commands: Vec<BridgeCommand> = Vec::new();
        commands.push(BridgeCommand::DownloadFile);
        commands.push(BridgeCommand::DownloadFileByBinary);
        commands.push(BridgeCommand::Open);
        assert(commands@ =~= BridgeCommand::all_spec());
        commands
    }
}

/// The operations carry three different names, so a name picks at most one
/// of them.
pub proof fn law_bridge_names_distinct(a: BridgeCommand, b: BridgeCommand)
    ensures
        a.name_spec() == b.name_spec() <==> a == b,
{
    reveal_strlit("download_file");
    reveal_strlit("download_file_by_binary");
    reveal_strlit("open");
    if a != b {
        assert(a.name_spec().len() != b.name_spec().len());
    }
}

} // verus!
