//! How the `mongod` executable is found and started.
use vstd::prelude::*;
use vstd::string::*;
use crate::downloader::Os;
use crate::text::{decimal, decimal_text};

verus! {

/// The file name of the server executable on `os`.
pub open spec fn server_binary(os: Os) -> Seq<char> {
    match os {
        Os::Windows => "mongod.exe"@,
        _ => "mongod"@,
    }
}

/// The command-line arguments the server is started with: its port, its database directory,
/// its bind address, and `--auth` when access control is on.
pub open spec fn server_args(port: u16, db_path: Seq<char>, bind_ip: Seq<char>, auth: bool) -> Seq<
    Seq<char>,
> {
    let base = seq![
        "--port"@,
        decimal(port as nat),
        "--dbpath"@,
        db_path,
        "--bind_ip"@,
        bind_ip,
    ];
    if auth {
        base.push("--auth"@)
    } else {
        base
    }
}

/// The characters of each string.
pub open spec fn texts(v: Seq<String>) -> Seq<Seq<char>> {
    v.map_values(|s: String| s@)
}

/// The file name of the server executable to look for in an unpacked release.
pub fn binary_name(os: Os) -> (r: &'static str)
    ensures
        r@ == server_binary(os),
{
    match os {
        Os::Windows => "mongod.exe",
        _ => "mongod",
    }
}

/// The arguments to start the server with.
pub fn server_arguments(port: u16, db_path: &str, bind_ip: &str, auth: bool) -> (r: Vec<String>)
    ensures
        texts(r@) == server_args(port, db_path@, bind_ip@, auth),
{
    let mut args: Vec<String> = Vec::new();
    args.push(String::from_str("--port"));
    args.push(decimal_text(port));
    args.push(String::from_str("--dbpath"));
    args.push(String::from_str(db_path));
    args.push(String::from_str("--bind_ip"));
    args.push(String::from_str(bind_ip));
    if auth {
        args.push(String::from_str("--auth"));
    }
    assert(texts(args@) =~= server_args(port, db_path@, bind_ip@, auth));
    args
}

/// Whatever the inputs, the server is started with `--port` and the port in decimal,
/// `--dbpath` and the database path, `--bind_ip` and the bind address, in that order, and then
/// `--auth` exactly when access control is on, and nothing else.
pub proof fn law_server_args_layout(port: u16, db_path: Seq<char>, bind_ip: Seq<char>, auth: bool)
    ensures
        server_args(port, db_path, bind_ip, auth).len() == if auth {
            7int
        } else {
            6int
        },
        server_args(port, db_path, bind_ip, auth)[0] == "--port"@,
        server_args(port, db_path, bind_ip, auth)[1] == decimal(port as nat),
        server_args(port, db_path, bind_ip, auth)[2] == "--dbpath"@,
        server_args(port, db_path, bind_ip, auth)[3] == db_path,
        server_args(port, db_path, bind_ip, auth)[4] == "--bind_ip"@,
        server_args(port, db_path, bind_ip, auth)[5] == bind_ip,
        auth ==> server_args(port, db_path, bind_ip, auth)[6] == "--auth"@,
{
}

/// The server executable is `mongod.exe` on Windows and `mongod` elsewhere.
pub proof fn law_server_binary_names()
    ensures
        server_binary(Os::Windows) == "mongod.exe"@,
        server_binary(Os::Linux) == "mongod"@,
        server_binary(Os::MacOs) == "mongod"@,
{
}

} // verus!
