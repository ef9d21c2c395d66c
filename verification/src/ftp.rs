//! Fetching one file by anonymous FTP: the commands sent, what each reply must be, and when the
//! data connection is opened. The caller owns the connections and hands over each reply.
use vstd::prelude::*;
#[allow(unused_imports)]
use vstd::string::*;

verus! {

/// A reply on the control connection, as far as fetching a file needs it.
#[derive(Clone, Copy, Debug, PartialEq, Eq)]
pub enum FtpReply {
    /// A reply with this code.
    Code(u16),
    /// The reply to PASV: where the data connection is to be opened.
    EnteringPassiveMode { addr: [u8; 4], port: u16 },
}

/// What the caller does next.
#[derive(Debug, PartialEq, Eq)]
pub enum FtpAction {
    /// Send this command on the control connection and hand over the reply.
    Send(Vec<u8>),
    /// Open the data connection to `addr:port`, then send `command` and hand over the reply.
    ConnectDataAndSend { addr: [u8; 4], port: u16, command: Vec<u8> },
    /// Read the file from the data connection until it closes.
    ReadData,
    /// The server replied `reply`, which the exchange does not expect: give up.
    Unexpected(FtpReply),
}

/// Where the exchange stands: which reply it waits for.
#[derive(Clone, Copy, Debug, PartialEq, Eq, Structural)]
pub enum FtpStage {
    /// The reply to USER.
    User,
    /// The reply to TYPE.
    Type,
    /// The reply to PASV.
    Pasv,
    /// The reply to RETR.
    Retr,
    /// The file is being read.
    Receiving,
    /// An unexpected reply ended the exchange.
    Failed,
}

/// Logs in as `anonymous`.
pub open spec fn spec_user_command() -> Seq<u8> {
    seq![0x55u8, 0x53, 0x45, 0x52, 0x20, 0x61, 0x6e, 0x6f, 0x6e, 0x79, 0x6d, 0x6f, 0x75, 0x73, 0x0d, 0x0a]
}

/// Selects binary transfers.
pub open spec fn spec_type_command() -> Seq<u8> {
    seq![0x54u8, 0x59, 0x50, 0x45, 0x20, 0x49, 0x0d, 0x0a]
}

/// Asks for a passive data connection.
pub open spec fn spec_pasv_command() -> Seq<u8> {
    seq![0x50u8, 0x41, 0x53, 0x56, 0x0d, 0x0a]
}

/// Asks for the file at `path`, whose bytes are sent as they are.
pub open spec fn spec_retr_command(path: Seq<u8>) -> Seq<u8> {
    seq![0x52u8, 0x45, 0x54, 0x52, 0x20] + path + seq![0x0du8, 0x0a]
}

/// Fetching one file: logs in anonymously, selects binary mode, opens a passive data connection
/// and retrieves the file.
pub struct FtpGet {
    stage: FtpStage,
    path: Vec<u8>,
}

/// Builds a byte vector from a fixed command.
fn bytes_of(s: &[u8]) -> (r: Vec<u8>)
    ensures
        r@ == s@,
{
    vstd::slice::slice_to_vec(s)
}

impl FtpGet {
    /// The reply the exchange waits for.
    pub closed spec fn spec_stage(&self) -> FtpStage {
        self.stage
    }

    /// The path of the file.
    pub closed spec fn spec_path(&self) -> Seq<u8> {
        self.path@
    }

    /// Starts fetching the file at `path`; the first action sends USER.
    pub fn new(path: &str) -> (r: (Self, FtpAction))
        ensures
            r.0.spec_stage() == FtpStage::User,
            r.0.spec_path() == path.spec_bytes(),
            r.1 matches FtpAction::Send(c) && c@ == spec_user_command(),
    {
        let user: [u8; 16] = [
            0x55,
            0x53,
            0x45,
            0x52,
            0x20,
            0x61,
            0x6e,
            0x6f,
            0x6e,
            0x79,
            0x6d,
            0x6f,
            0x75,
            0x73,
            0x0d,
            0x0a,
        ];
        let command = bytes_of(&user);
        assert(command@ =~= spec_user_command());
        (
            FtpGet { stage: FtpStage::User, path: bytes_of(path.as_bytes()) },
            FtpAction::Send(command),
        )
    }

    /// Takes the reply to the last command and decides the next action: 230 to USER, 200 to
    /// TYPE, a passive address to PASV and 150 to RETR move the exchange on; anything else ends
    /// it.
    pub fn on_reply(&mut self, reply: FtpReply) -> (r: FtpAction)
        ensures
            final(self).spec_path() == old(self).spec_path(),
            match (old(self).spec_stage(), reply) {
                (FtpStage::User, FtpReply::Code(230)) => {
                    &&& final(self).spec_stage() == FtpStage::Type
                    &&& r matches FtpAction::Send(c) && c@ == spec_type_command()
                },
                (FtpStage::Type, FtpReply::Code(200)) => {
                    &&& final(self).spec_stage() == FtpStage::Pasv
                    &&& r matches FtpAction::Send(c) && c@ == spec_pasv_command()
                },
                (FtpStage::Pasv, FtpReply::EnteringPassiveMode { addr, port }) => {
                    &&& final(self).spec_stage() == FtpStage::Retr
                    &&& r matches FtpAction::ConnectDataAndSend { addr: a, port: p, command: c }
                        && a == addr && p == port && c@ == spec_retr_command(old(self).spec_path())
                },
                (FtpStage::Retr, FtpReply::Code(150)) => {
                    &&& final(self).spec_stage() == FtpStage::Receiving
                    &&& r == FtpAction::ReadData
                },
                _ => {
                    &&& final(self).spec_stage() == FtpStage::Failed
                    &&& r == FtpAction::Unexpected(reply)
                },
            },
    {
        match (self.stage, reply) {
            (FtpStage::User, FtpReply::Code(230)) => {
                self.stage = FtpStage::Type;
                let c: [u8; 8] = [0x54, 0x59, 0x50, 0x45, 0x20, 0x49, 0x0d, 0x0a];
                let command = bytes_of(&c);
                assert(command@ =~= spec_type_command());
                FtpAction::Send(command)
            },
            (FtpStage::Type, FtpReply::Code(200)) => {
                self.stage = FtpStage::Pasv;
                let c: [u8; 6] = [0x50, 0x41, 0x53, 0x56, 0x0d, 0x0a];
                let command = bytes_of(&c);
                assert(command@ =~= spec_pasv_command());
                FtpAction::Send(command)
            },
            (FtpStage::Pasv, FtpReply::EnteringPassiveMode { addr, port }) => {
                self.stage = FtpStage::Retr;
                let head: [u8; 5] = [0x52, 0x45, 0x54, 0x52, 0x20];
                let mut command = bytes_of(&head);
                let mut path = self.path.clone();
                command.append(&mut path);
                command.push(0x0d);
                command.push(0x0a);
                assert(command@ =~= spec_retr_command(self.path@));
                FtpAction::ConnectDataAndSend { addr, port, command }
            },
            (FtpStage::Retr, FtpReply::Code(150)) => {
                self.stage = FtpStage::Receiving;
                FtpAction::ReadData
            },
            _ => {
                self.stage = FtpStage::Failed;
                FtpAction::Unexpected(reply)
            },
        }
    }
}

} // verus!
