//! The resident Neovim: how its process is started and what is said to it.
use vstd::prelude::*;

use crate::text::decimal;
use crate::value::{write_lines, Value};

verus! {

/// How Neovim is started. `P` is a path as the system spells it, which need not be text; paths are
/// only handed on.
#[derive(Clone, Debug)]
pub struct NvimConfig<P> {
    /// The executable.
    pub nvim_exe: P,
    /// The directory that holds the bundled `init.lua`.
    pub runtime_dir: P,
    /// The name under which Neovim keeps its configuration and data, apart from those of a Neovim
    /// that the user has.
    pub appname: String,
}

/// An argument of a child process.
#[derive(Debug, PartialEq, Eq)]
pub enum Arg<'a, P> {
    Text(String),
    Path(&'a P),
}

/// An [`Arg`], by contents.
pub ghost enum Word<P> {
    Text(Seq<char>),
    Path(P),
}

impl<'a, P> View for Arg<'a, P> {
    type V = Word<P>;

    open spec fn view(&self) -> Word<P> {
        match self {
            Arg::Text(text) => Word::Text(text@),
            Arg::Path(path) => Word::Path(**path),
        }
    }
}

/// The command line of a child process.
#[derive(Debug, PartialEq, Eq)]
pub struct ChildCommand<'a, P> {
    pub program: &'a P,
    pub args: Vec<Arg<'a, P>>,
    /// Variables that are set.
    pub env: Vec<(String, String)>,
    /// Variables that are taken out.
    pub env_remove: Vec<String>,
}

/// The address that Neovim listens on.
pub open spec fn listen_address(port: u16) -> Seq<char> {
    "127.0.0.1:"@ + crate::text::numeral(port as nat)
}

/// The address that Neovim listens on.
pub fn listen_on(port: u16) -> (address: String)
    ensures
        address@ == listen_address(port),
{
    let mut address = "127.0.0.1:".to_owned();
    address.append(decimal(port as u64).as_str());
    address
}

/// The arguments that Neovim is started with.
pub open spec fn nvim_args<P>(init_lua: P, port: u16) -> Seq<Word<P>> {
    seq![
        Word::Text("--headless"@),
        Word::Text("--listen"@),
        Word::Text(listen_address(port)),
        Word::Text("-u"@),
        Word::Path(init_lua),
        Word::Text("--noplugin"@),
    ]
}

/// The command that starts Neovim: headless, listening on the port, with the bundled `init.lua`
/// instead of the user's, and without plugins.
///
/// `VIMRUNTIME` and `VIM` are taken out of the environment, or the bundled Neovim would find the
/// runtime files of another one.
pub fn spawn_child<'a, P>(cfg: &'a NvimConfig<P>, init_lua: &'a P, port: u16) -> (command:
    ChildCommand<'a, P>)
    ensures
        *command.program == cfg.nvim_exe,
        command.args@.map_values(|arg: Arg<'a, P>| arg@) == seq![
            Word::Text("--headless"@),
            Word::Text("--listen"@),
            Word::Text(listen_address(port)),
            Word::Text("-u"@),
            Word::Path(*init_lua),
            Word::Text("--noplugin"@),
        ],
        command.args@.map_values(|arg: Arg<'a, P>| arg@) == nvim_args(*init_lua, port),
        command.env@.len() == 1,
        command.env@[0].0@ == "NVIM_APPNAME"@,
        command.env@[0].1@ == cfg.appname@,
        crate::text::texts(command.env_remove@) == seq!["VIMRUNTIME"@, "VIM"@],
{
    let mut args: Vec<Arg<'a, P>> = Vec::new();
    args.push(Arg::Text("--headless".to_owned()));
    args.push(Arg::Text("--listen".to_owned()));
    args.push(Arg::Text(listen_on(port)));
    args.push(Arg::Text("-u".to_owned()));
    args.push(Arg::Path(init_lua));
    args.push(Arg::Text("--noplugin".to_owned()));
    let mut env: Vec<(String, String)> = Vec::new();
    env.push(("NVIM_APPNAME".to_owned(), cfg.appname.clone()));
    let mut env_remove: Vec<String> = Vec::new();
    env_remove.push("VIMRUNTIME".to_owned());
    env_remove.push("VIM".to_owned());
    proof {
        assert(args@.map_values(|arg: Arg<'a, P>| arg@) =~= seq![
            Word::Text("--headless"@),
            Word::Text("--listen"@),
            Word::Text(listen_address(port)),
            Word::Text("-u"@),
            Word::Path(*init_lua),
            Word::Text("--noplugin"@),
        ]);
        assert(crate::text::texts(env_remove@) =~= seq!["VIMRUNTIME"@, "VIM"@]);
    }
    ChildCommand { program: &cfg.nvim_exe, args, env, env_remove }
}

/// The arguments that start a session: the lines, and the file type or nil.
pub fn start_session(lines: &Vec<String>, filetype: Option<&str>) -> (args: Vec<Value>)
    ensures
        args.len() == 2,
        args@[0] is List,
        crate::value::first_non_text(args@[0]->List_0@, 0) is None,
        crate::value::item_texts(args@[0]->List_0@) == crate::text::texts(lines@),
        filetype is None ==> args@[1] is Nil,
        filetype is Some ==> args@[1].text() == Some(filetype->0@),
{
    let mut args: Vec<Value> = Vec::new();
    args.push(Value::List(write_lines(lines)));
    args.push(
        match filetype {
            None => Value::Nil,
            Some(filetype) => Value::Text(filetype.to_owned()),
        },
    );
    args
}

/// Whether Neovim took every byte of an input, given how many it says it took. It takes fewer when
/// its input buffer is full; the rest is not sent again.
pub fn took_every_byte(written: i64, requested: usize) -> (all: bool)
    ensures
        all == (requested <= written <= usize::MAX),
{
    written >= 0 && written as u64 <= usize::MAX as u64 && written as u64 >= requested as u64
}

/// Why the channel under which Neovim knows the host could not be told.
#[derive(Clone, Copy, Debug, PartialEq, Eq, Structural)]
pub enum NoChannel {
    /// Neovim said nothing of itself.
    EmptyInfo,
    /// What it said first is no channel number.
    NotAChannel,
}

impl NoChannel {
    /// What is said of it.
    pub open spec fn said(self) -> Seq<char> {
        match self {
            NoChannel::EmptyInfo => "nvim_get_api_info returned an empty array"@,
            NoChannel::NotAChannel =>
                "nvim_get_api_info's first element is not a channel id: "@,
        }
    }

    /// A sentence for logs. What Neovim said first is to follow, if it said anything.
    pub fn message(self) -> (text: String)
        ensures
            text@ == self.said(),
    {
        match self {
            NoChannel::EmptyInfo => "nvim_get_api_info returned an empty array".to_owned(),
            NoChannel::NotAChannel => {
                "nvim_get_api_info's first element is not a channel id: ".to_owned()
            },
        }
    }
}

/// The channel under which Neovim knows the host: the first thing that it says of itself.
pub fn register_host(api_info: &Vec<Value>) -> (r: Result<i64, NoChannel>)
    ensures
        r matches Ok(channel) ==> api_info.len() > 0 && api_info@[0] == Value::Integer(
            channel as i128,
        ),
        r == Err::<i64, NoChannel>(NoChannel::EmptyInfo) <==> api_info.len() == 0,
        r == Err::<i64, NoChannel>(NoChannel::NotAChannel) <==> api_info.len() > 0 && !(
        api_info@[0] matches Value::Integer(n) && i64::MIN <= n <= i64::MAX),
{
    if api_info.len() == 0 {
        return Err(NoChannel::EmptyInfo);
    }
    match api_info[0].as_i64() {
        Some(channel) => Ok(channel),
        None => Err(NoChannel::NotAChannel),
    }
}

// ---------------------------------------------------------------------------
// Laws
// ---------------------------------------------------------------------------

/// Neovim listens on the machine itself, on the port that was picked, written in decimal.
pub proof fn law_neovim_listens_on_the_picked_port(port: u16)
    ensures
        listen_address(port) == "127.0.0.1:"@ + crate::text::numeral(port as nat),
{
}

/// What is said of a missing channel.
pub proof fn law_missing_channels_are_told_apart()
    ensures
        NoChannel::EmptyInfo.said() == "nvim_get_api_info returned an empty array"@,
        NoChannel::NotAChannel.said() == "nvim_get_api_info's first element is not a channel id: "@,
{
}

/// An argument is seen as the text or the path that it is.
pub proof fn law_arguments_are_seen_whole<'a, P>(text: String, path: &'a P)
    ensures
        Arg::<'a, P>::Text(text)@ == Word::<P>::Text(text@),
        Arg::<'a, P>::Path(path)@ == Word::Path(*path),
{
}

/// Neovim is started without a screen and without plugins, listens where the host connects, and
/// reads the bundled `init.lua` in place of the user's: each option stands before its value, and
/// there is nothing else.
pub proof fn law_how_neovim_is_started<P>(init_lua: P, port: u16)
    ensures
        nvim_args(init_lua, port).len() == 6,
        nvim_args(init_lua, port)[0] == Word::<P>::Text("--headless"@),
        nvim_args(init_lua, port)[1] == Word::<P>::Text("--listen"@),
        nvim_args(init_lua, port)[2] == Word::<P>::Text(
            "127.0.0.1:"@ + crate::text::numeral(port as nat),
        ),
        nvim_args(init_lua, port)[3] == Word::<P>::Text("-u"@),
        nvim_args(init_lua, port)[4] == Word::Path(init_lua),
        nvim_args(init_lua, port)[5] == Word::<P>::Text("--noplugin"@),
{
}

} // verus!
