//! The settings of the service.

use vstd::prelude::*;

verus! {

/// The settings of the service.
#[derive(Debug)]
pub struct Args {
    /// Address of the origin server to render sequences on
    pub origin: String,
    /// Address of the server to retrieve sequences from (without the trailing slash)
    pub sequence_origin: String,
    /// Path to the chromedriver executable
    pub driver_executable: String,
    /// Path to the ffmpeg executable
    pub ffmpeg_executable: String,
    /// Maximum parallel renders
    pub renders: u8,
}

/// The values in [`Args`].
pub struct ArgsView {
    pub origin: Seq<char>,
    pub sequence_origin: Seq<char>,
    pub driver_executable: Seq<char>,
    pub ffmpeg_executable: Seq<char>,
    pub renders: nat,
}

impl View for Args {
    type V = ArgsView;

    open spec fn view(&self) -> ArgsView {
        ArgsView {
            origin: self.origin@,
            sequence_origin: self.sequence_origin@,
            driver_executable: self.driver_executable@,
            ffmpeg_executable: self.ffmpeg_executable@,
            renders: self.renders as nat,
        }
    }
}

impl Clone for Args {
    fn clone(&self) -> (args: Self)
        ensures
            args@ == self@,
    {
        Args {
            origin: self.origin.clone(),
            sequence_origin: self.sequence_origin.clone(),
            driver_executable: self.driver_executable.clone(),
            ffmpeg_executable: self.ffmpeg_executable.clone(),
            renders: self.renders,
        }
    }
}

impl Default for Args {
    /// The settings that hold where the command line gives none.
    fn default() -> (args: Self)
        ensures
            args@ == (ArgsView {
                origin: "https://onlinesequencer.net"@,
                sequence_origin: "https://onlinesequencer.net"@,
                driver_executable: "chromedriver"@,
                ffmpeg_executable: "ffmpeg"@,
                renders: 10,
            }),
    {
        Args {
            origin: "https://onlinesequencer.net".to_owned(),
            sequence_origin: "https://onlinesequencer.net".to_owned(),
            driver_executable: "chromedriver".to_owned(),
            ffmpeg_executable: "ffmpeg".to_owned(),
            renders: 10,
        }
    }
}

} // verus!
