use vstd::prelude::*;

verus! {

/// Where the download manager is installed when nothing else is said.
pub const DEFAULT_IDM_PATH: &'static str = "C:\\Program Files (x86)\\Internet Download Manager\\IDMan.exe";

/// How the download manager should behave while it works.
#[derive(Clone, Copy, Debug, PartialEq, Eq, Structural)]
pub enum Mode {
    Default,
    /// Turns on the silent mode when IDM doesn't ask any questions.
    Silent,
}

/// The fields of a download request as mathematical values.
pub struct RequestView {
    pub tool_path: Seq<char>,
    pub mode: Mode,
    pub url: Seq<char>,
    pub dest_path: Option<Seq<char>>,
    pub dest_name: Option<Seq<char>>,
}

/// The token that asks the tool not to prompt.
pub open spec fn silent_flag() -> Seq<char> {
    seq!['/', 'n']
}

/// The token that precedes the source URL.
pub open spec fn source_flag() -> Seq<char> {
    seq!['/', 'd']
}

/// The token that precedes the destination directory.
pub open spec fn dir_flag() -> Seq<char> {
    seq!['/', 'p']
}

/// The token that precedes the destination file name.
pub open spec fn name_flag() -> Seq<char> {
    seq!['/', 'f']
}

/// The tokens a mode contributes: the silence flag in silent mode, nothing otherwise.
pub open spec fn mode_args(mode: Mode) -> Seq<Seq<char>> {
    match mode {
        Mode::Default => seq![],
        Mode::Silent => seq![silent_flag()],
    }
}

/// A flag followed by its value when the value is set, nothing otherwise.
pub open spec fn optional_args(flag: Seq<char>, value: Option<Seq<char>>) -> Seq<Seq<char>> {
    match value {
        Some(v) => seq![flag, v],
        None => seq![],
    }
}

/// The argument list of a request, in the order the tool expects it.
pub open spec fn args_of(v: RequestView) -> Seq<Seq<char>> {
    mode_args(v.mode) + seq![source_flag(), v.url] + optional_args(dir_flag(), v.dest_path)
        + optional_args(name_flag(), v.dest_name)
}

/// A builder for one download handed to the download manager.
#[allow(non_camel_case_types)]
pub struct idman {
    idm_path: String,
    mode: Mode,
    download_file_url: String,
    download_file_path: Option<String>,
    download_file_name: Option<String>,
}

impl View for idman {
    type V = RequestView;

    closed spec fn view(&self) -> RequestView {
        RequestView {
            tool_path: self.idm_path@,
            mode: self.mode,
            url: self.download_file_url@,
            dest_path: match self.download_file_path {
                Some(p) => Some(p@),
                None => None,
            },
            dest_name: match self.download_file_name {
                Some(n) => Some(n@),
                None => None,
            },
        }
    }
}

impl idman {
    /// Create a new builder.
    pub fn new() -> (r: Self)
        ensures
            r@ == (RequestView {
                tool_path: DEFAULT_IDM_PATH@,
                mode: Mode::Default,
                url: Seq::empty(),
                dest_path: None,
                dest_name: None,
            }),
    {
        let r = idman {
            idm_path: DEFAULT_IDM_PATH.to_owned(),
            mode: Mode::Default,
            download_file_url: String::new(),
            download_file_path: None,
            download_file_name: None,
        };
        proof {
            assert(r@.url =~= Seq::<char>::empty());
        }
        r
    }

    /// Set the path to the IDMan executable, a full path with the .exe at the end.
    /// This is optional: the default is the usual install location.
    pub fn set_idm_path(&mut self, idm_path: &str)
        ensures
            final(self)@ == (RequestView { tool_path: idm_path@, ..old(self)@ }),
    {
        self.idm_path = idm_path.to_owned();
    }

    /// Set the download mode. This is optional: the default mode is `Mode::Default`.
    pub fn set_mode(&mut self, mode: Mode)
        ensures
            final(self)@ == (RequestView { mode: mode, ..old(self)@ }),
    {
        self.mode = mode;
    }

    /// Set the url to the file.
    pub fn set_download_file_url(&mut self, url: &str)
        ensures
            final(self)@ == (RequestView { url: url@, ..old(self)@ }),
    {
        self.download_file_url = url.to_owned();
    }

    /// Set the directory where the file will be downloaded.
    /// This is optional: by default the tool chooses it.
    pub fn set_download_file_path(&mut self, file_path: &str)
        ensures
            final(self)@ == (RequestView { dest_path: Some(file_path@), ..old(self)@ }),
    {
        self.download_file_path = Some(file_path.to_owned());
    }

    /// Set the file name, extension included.
    /// This is optional: by default the tool detects it.
    pub fn set_download_file_name(&mut self, file_name: &str)
        ensures
            final(self)@ == (RequestView { dest_name: Some(file_name@), ..old(self)@ }),
    {
        self.download_file_name = Some(file_name.to_owned());
    }

    /// The path of the executable that will be launched.
    pub fn idm_path(&self) -> (r: &str)
        ensures
            r@ == self@.tool_path,
    {
        self.idm_path.as_str()
    }

    /// The arguments handed to the download manager, in the order it expects them.
    pub fn process_args(&self) -> (r: Vec<String>)
        ensures
            r.deep_view() == args_of(self@),
    {
        proof {
            reveal_strlit("/n");
            reveal_strlit("/d");
            reveal_strlit("/p");
            reveal_strlit("/f");
        }
        let mut args: Vec<String> = Vec::new();
        if let Mode::Silent = self.mode {
            let f = "/n".to_owned();
            assert(f@ =~= silent_flag());
            args.push(f);
        }
        assert(args.deep_view() =~= mode_args(self@.mode));

        let ghost before = args.deep_view();
        let f = "/d".to_owned();
        assert(f@ =~= source_flag());
        args.push(f);
        args.push(self.download_file_url.clone());
        assert(args.deep_view() =~= before + seq![source_flag(), self@.url]);

        let ghost before = args.deep_view();
        if let Some(p) = &self.download_file_path {
            let f = "/p".to_owned();
            assert(f@ =~= dir_flag());
            args.push(f);
            args.push(p.clone());
        }
        assert(args.deep_view() =~= before + optional_args(dir_flag(), self@.dest_path));

        let ghost before = args.deep_view();
        if let Some(n) = &self.download_file_name {
            let f = "/f".to_owned();
            assert(f@ =~= name_flag());
            args.push(f);
            args.push(n.clone());
        }
        assert(args.deep_view() =~= before + optional_args(name_flag(), self@.dest_name));
        args
    }
}

} // verus!
