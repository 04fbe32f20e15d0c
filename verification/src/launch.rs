//! Finding the agent's executable and deciding how to start it.

use vstd::prelude::*;
use vstd::string::*;
use crate::client::Ngrok;
use crate::error::{ClientError, ClientErrorView};
use crate::platform::{download_for, Download, DownloadView, PlatformView};

verus! {

/// The first argument given to the agent: the command that starts it.
pub const START_COMMAND: &'static str = "start";

/// The second argument given to the agent: start without opening a tunnel.
pub const NO_TUNNELS: &'static str = "--none";

/// Where the executable to start comes from.
#[derive(Debug, PartialEq, Eq)]
pub enum Program<P> {
    /// It was found on the search path, at this place.
    Found(P),
    /// It has to be installed first, by this plan.
    Archive(Download),
}

/// An order to start the agent.
#[derive(Debug, PartialEq, Eq)]
pub struct Launch<P> {
    pub program: Program<P>,
    /// The arguments to start it with, in order.
    pub arguments: Vec<String>,
}

/// The content of a [`Program`].
pub enum ProgramView<P> {
    Found(P),
    Archive(DownloadView),
}

/// The content of a [`Launch`].
pub struct LaunchView<P> {
    pub program: ProgramView<P>,
    pub arguments: Seq<Seq<char>>,
}

impl<P> View for Program<P> {
    type V = ProgramView<P>;

    open spec fn view(&self) -> ProgramView<P> {
        match self {
            Program::Found(path) => ProgramView::Found(*path),
            Program::Archive(download) => ProgramView::Archive(download@),
        }
    }
}

impl<P> View for Launch<P> {
    type V = LaunchView<P>;

    open spec fn view(&self) -> LaunchView<P> {
        LaunchView {
            program: self.program@,
            arguments: self.arguments@.map_values(|argument: String| argument@),
        }
    }
}

/// The arguments that the agent is started with.
pub open spec fn launch_arguments() -> Seq<Seq<char>> {
    seq![START_COMMAND@, NO_TUNNELS@]
}

/// How the agent is started on a machine, given what the search path held:
/// from the search path where the executable was found there, else from the
/// archive for the machine, and not at all where no archive exists for it.
pub open spec fn launch_for<P>(found: Option<P>, platform: PlatformView) -> Result<
    LaunchView<P>,
    ClientErrorView,
> {
    match found {
        Some(path) => Ok(
            LaunchView { program: ProgramView::Found(path), arguments: launch_arguments() },
        ),
        None => match download_for(platform) {
            Some(download) => Ok(
                LaunchView {
                    program: ProgramView::Archive(download),
                    arguments: launch_arguments(),
                },
            ),
            None => Err(ClientErrorView::UnsupportedPlatform),
        },
    }
}

/// Whether `at` is the place of the first `true` in a list.
pub open spec fn first_file(is_file: Seq<bool>, at: int) -> bool {
    &&& 0 <= at < is_file.len()
    &&& is_file[at]
    &&& forall|k: int| 0 <= k < at ==> !is_file[k]
}

/// Picks the executable among the candidates of a search path.
///
/// The list says of each directory of the search path, in the order of the
/// path, whether it holds a file of the executable's name. The result is the
/// place of the first that does; `None` where none does.
pub fn find_file_in_path(is_file: &Vec<bool>) -> (r: Option<usize>)
    ensures
        match r {
            Some(at) => first_file(is_file@, at as int),
            None => forall|k: int| 0 <= k < is_file@.len() ==> !is_file@[k],
        },
{
    let mut i: usize = 0;
    while i < is_file.len()
        invariant
            i <= is_file.len(),
            forall|k: int| 0 <= k < i ==> !is_file@[k],
        decreases is_file.len() - i,
    {
        if is_file[i] {
            return Some(i);
        }
        i += 1;
    }
    None
}

impl Ngrok {
    /// Decides how to start the agent, given where the search path holds its
    /// executable, if anywhere.
    ///
    /// An executable on the search path is started as it is. Without one, the
    /// agent is installed from the archive for this machine and then started.
    /// Where no archive exists for the machine the result is
    /// `UnsupportedPlatform`, and nothing is to be fetched or written.
    pub fn start_server<P>(&self, found: Option<P>) -> (r: Result<Launch<P>, ClientError>)
        ensures
            match r {
                Ok(launch) => launch_for(found, self.machine()@) == Ok::<
                    LaunchView<P>,
                    ClientErrorView,
                >(launch@),
                Err(e) => launch_for(found, self.machine()@) == Err::<
                    LaunchView<P>,
                    ClientErrorView,
                >(e@),
            },
    {
        let program = match found {
            Some(path) => Program::Found(path),
            None => Program::Archive(self.download()?),
        };
        let mut arguments: Vec<String> = Vec::new();
        arguments.push(String::from_str(START_COMMAND));
        arguments.push(String::from_str(NO_TUNNELS));
        let launch = Launch { program, arguments };
        assert(launch@.arguments =~= launch_arguments());
        Ok(launch)
    }
}

} // verus!
