use vstd::prelude::*;

use crate::call::{MediaStart, PipelineKind};

verus! {

/// What a click on a media button asks of its sending pipeline.
#[derive(Clone, Copy, Debug, PartialEq, Eq, Structural)]
pub enum PipelineCommand {
    Pause,
    Start,
}

/// The state of the call pane: which parts show, whether the camera and microphone
/// buttons are highlighted (their pipelines stream), and the pictures in the call grid,
/// first the one shown first.
pub struct CallPane {
    call_box_visible: bool,
    placeholder_visible: bool,
    action_bar_visible: bool,
    camera_video_visible: bool,
    camera_video_suggested: bool,
    microphone_suggested: bool,
    grid: Vec<PipelineKind>,
}

/// The mathematical state of a call pane.
pub struct CallPaneView {
    pub call_box_visible: bool,
    pub placeholder_visible: bool,
    pub action_bar_visible: bool,
    pub camera_video_visible: bool,
    pub camera_video_suggested: bool,
    pub microphone_suggested: bool,
    pub grid: Seq<PipelineKind>,
}

impl View for CallPane {
    type V = CallPaneView;

    closed spec fn view(&self) -> CallPaneView {
        CallPaneView {
            call_box_visible: self.call_box_visible,
            placeholder_visible: self.placeholder_visible,
            action_bar_visible: self.action_bar_visible,
            camera_video_visible: self.camera_video_visible,
            camera_video_suggested: self.camera_video_suggested,
            microphone_suggested: self.microphone_suggested,
            grid: self.grid@,
        }
    }
}

/// The pane with no call: the placeholder shows, the call box and action bar are hidden,
/// both media buttons are highlighted and the grid is empty.
pub open spec fn idle_pane(camera_video_visible: bool) -> CallPaneView {
    CallPaneView {
        call_box_visible: false,
        placeholder_visible: true,
        action_bar_visible: false,
        camera_video_visible: camera_video_visible,
        camera_video_suggested: true,
        microphone_suggested: true,
        grid: Seq::empty(),
    }
}

/// The pane with the call box and the action bar shown in place of the placeholder.
pub open spec fn opened(p: CallPaneView) -> CallPaneView {
    CallPaneView {
        call_box_visible: true,
        placeholder_visible: false,
        action_bar_visible: true,
        ..p
    }
}

/// The pane after a click on the camera button.
pub open spec fn camera_clicked(p: CallPaneView) -> CallPaneView {
    CallPaneView { camera_video_suggested: !p.camera_video_suggested, ..p }
}

/// The pane after a click on the microphone button.
pub open spec fn microphone_clicked(p: CallPaneView) -> CallPaneView {
    CallPaneView { microphone_suggested: !p.microphone_suggested, ..p }
}

/// The pane after the media of a started call is shown.
pub open spec fn media_shown(p: CallPaneView, start: MediaStart) -> CallPaneView {
    opened(
        CallPaneView {
            grid: if start.shows_picture { seq![start.pipeline] + p.grid } else { p.grid },
            camera_video_visible: start.camera_video_visible,
            ..p
        },
    )
}

/// The command that a click on a media button gives, by whether the button was highlighted.
pub open spec fn click_command(highlighted: bool) -> PipelineCommand {
    if highlighted { PipelineCommand::Pause } else { PipelineCommand::Start }
}

impl CallPane {
    /// Initialize new CallPane: no call is shown.
    pub fn new() -> (p: Self)
        ensures
            p@ == idle_pane(true),
    {
        CallPane {
            call_box_visible: false,
            placeholder_visible: true,
            action_bar_visible: false,
            camera_video_visible: true,
            camera_video_suggested: true,
            microphone_suggested: true,
            grid: Vec::new(),
        }
    }

    /// Shows the call box and the action bar in place of the placeholder.
    pub fn open_call(&mut self)
        ensures
            final(self)@ == opened(old(self)@),
    {
        self.call_box_visible = true;
        self.placeholder_visible = false;
        self.action_bar_visible = true;
    }

    /// Shows the media of a started call: the picture of a video stream goes first in the
    /// grid, the camera button shows as the start says, and the call opens.
    pub fn show_media(&mut self, start: &MediaStart)
        ensures
            final(self)@ == media_shown(old(self)@, *start),
    {
        if start.shows_picture {
            self.grid.insert(0, start.pipeline);
            assert(self.grid@ =~= seq![start.pipeline] + old(self)@.grid);
        }
        self.camera_video_visible = start.camera_video_visible;
        self.open_call();
    }

    /// A click on the camera button: a highlighted button loses its highlight and the
    /// video sender pauses; otherwise the button is highlighted and the sender starts.
    pub fn click_camera_video(&mut self) -> (c: PipelineCommand)
        ensures
            final(self)@ == camera_clicked(old(self)@),
            c == click_command(old(self)@.camera_video_suggested),
    {
        if self.camera_video_suggested {
            self.camera_video_suggested = false;
            PipelineCommand::Pause
        } else {
            self.camera_video_suggested = true;
            PipelineCommand::Start
        }
    }

    /// A click on the microphone button: a highlighted button loses its highlight and the
    /// audio sender pauses; otherwise the button is highlighted and the sender starts.
    pub fn click_audio_input_microphone(&mut self) -> (c: PipelineCommand)
        ensures
            final(self)@ == microphone_clicked(old(self)@),
            c == click_command(old(self)@.microphone_suggested),
    {
        if self.microphone_suggested {
            self.microphone_suggested = false;
            PipelineCommand::Pause
        } else {
            self.microphone_suggested = true;
            PipelineCommand::Start
        }
    }

    /// Puts the pane back in its idle state after a call ended; the camera button keeps
    /// its visibility.
    pub fn end_call(&mut self)
        ensures
            final(self)@ == idle_pane(old(self)@.camera_video_visible),
    {
        self.call_box_visible = false;
        self.placeholder_visible = true;
        self.action_bar_visible = false;
        self.camera_video_suggested = true;
        self.microphone_suggested = true;
        self.grid = Vec::new();
    }

    /// Whether the call box shows.
    pub fn call_box_visible(&self) -> (r: bool)
        ensures
            r == self@.call_box_visible,
    {
        self.call_box_visible
    }

    /// Whether the placeholder shows.
    pub fn placeholder_visible(&self) -> (r: bool)
        ensures
            r == self@.placeholder_visible,
    {
        self.placeholder_visible
    }

    /// Whether the action bar shows.
    pub fn action_bar_visible(&self) -> (r: bool)
        ensures
            r == self@.action_bar_visible,
    {
        self.action_bar_visible
    }

    /// Whether the camera button shows.
    pub fn camera_video_visible(&self) -> (r: bool)
        ensures
            r == self@.camera_video_visible,
    {
        self.camera_video_visible
    }

    /// Whether the camera button is highlighted.
    pub fn camera_video_suggested(&self) -> (r: bool)
        ensures
            r == self@.camera_video_suggested,
    {
        self.camera_video_suggested
    }

    /// Whether the microphone button is highlighted.
    pub fn microphone_suggested(&self) -> (r: bool)
        ensures
            r == self@.microphone_suggested,
    {
        self.microphone_suggested
    }

    /// The pictures in the call grid, first the one shown first.
    pub fn grid(&self) -> (g: &Vec<PipelineKind>)
        ensures
            g@ == self@.grid,
    {
        &self.grid
    }
}

} // verus!

verus! {

/// Clicking a media button twice gives back the pane, and the two clicks give opposite
/// commands: pause then start, or start then pause.
pub proof fn media_button_clicked_twice(p: CallPaneView)
    ensures
        camera_clicked(camera_clicked(p)) == p,
        microphone_clicked(microphone_clicked(p)) == p,
        click_command(camera_clicked(p).camera_video_suggested) != click_command(p.camera_video_suggested),
        click_command(microphone_clicked(p).microphone_suggested) != click_command(p.microphone_suggested),
{
}

/// Ending a call after any media was shown leaves the idle pane, whatever was shown.
pub proof fn ending_a_call_clears_the_media(p: CallPaneView, start: MediaStart)
    ensures
        idle_pane(media_shown(p, start).camera_video_visible) == idle_pane(start.camera_video_visible),
        idle_pane(start.camera_video_visible).grid.len() == 0,
        !idle_pane(start.camera_video_visible).call_box_visible,
        idle_pane(start.camera_video_visible).placeholder_visible,
{
}

} // verus!

verus! {

/// Showing a started call's media opens the call, whatever the media: the call box and
/// action bar show and the placeholder hides. A video stream's picture goes first in the
/// grid and nothing else joins it; the camera button shows as the start says; the
/// highlights of the media buttons stay.
pub proof fn showing_media_opens_the_call(p: CallPaneView, start: MediaStart)
    ensures
        ({
            let q = media_shown(p, start);
            &&& q.call_box_visible
            &&& q.action_bar_visible
            &&& !q.placeholder_visible
            &&& q.camera_video_visible == start.camera_video_visible
            &&& q.camera_video_suggested == p.camera_video_suggested
            &&& q.microphone_suggested == p.microphone_suggested
            &&& q.grid == (if start.shows_picture { seq![start.pipeline] + p.grid } else { p.grid })
        }),
{
}

} // verus!
