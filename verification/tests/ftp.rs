use bsp_loader::ftp::{FtpAction, FtpGet, FtpReply};

#[test]
fn anonymous_retrieval() {
    let (mut get, first) = FtpGet::new("maps.txt");
    assert_eq!(first, FtpAction::Send(b"USER anonymous\r\n".to_vec()));
    assert_eq!(get.on_reply(FtpReply::Code(230)), FtpAction::Send(b"TYPE I\r\n".to_vec()));
    assert_eq!(get.on_reply(FtpReply::Code(200)), FtpAction::Send(b"PASV\r\n".to_vec()));
    assert_eq!(
        get.on_reply(FtpReply::EnteringPassiveMode { addr: [10, 0, 1, 104], port: 5000 }),
        FtpAction::ConnectDataAndSend {
            addr: [10, 0, 1, 104],
            port: 5000,
            command: b"RETR maps.txt\r\n".to_vec(),
        }
    );
    assert_eq!(get.on_reply(FtpReply::Code(150)), FtpAction::ReadData);
}

#[test]
fn unexpected_replies_end_the_exchange() {
    let (mut get, _) = FtpGet::new("x.dat");
    assert_eq!(get.on_reply(FtpReply::Code(530)), FtpAction::Unexpected(FtpReply::Code(530)));
    assert_eq!(get.on_reply(FtpReply::Code(230)), FtpAction::Unexpected(FtpReply::Code(230)));
    let (mut get, _) = FtpGet::new("x.dat");
    get.on_reply(FtpReply::Code(230));
    get.on_reply(FtpReply::Code(200));
    assert_eq!(get.on_reply(FtpReply::Code(227)), FtpAction::Unexpected(FtpReply::Code(227)));
}
