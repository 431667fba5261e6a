use crate::icon::{create_icon_with_text, icon_for, Bitmap, IconError, Picture};
use crate::temp::{get_cpu_temperature, is_die_label, ComponentTemperature, Reading};
use vstd::prelude::*;

verus! {

/// Seconds from one tick of the timer to the next.
pub const TICK_SECONDS: u64 = 10;

/// The temperature on the icon that is shown until the first reading.
pub const INITIAL_TEMPERATURE: u8 = 0;

/// What reaches the tray through the event loop.
#[derive(Clone, Copy, Debug, PartialEq, Eq, Structural)]
pub enum UserEvent {
    /// The timer fired.
    Tick,
    /// Something happened to the tray icon itself: a click, the pointer.
    TrayIconEvent,
    /// An item of the menu was chosen; `quit` says whether it was the item
    /// that ends the program.
    MenuEvent { quit: bool },
}

/// What the event loop is to do with the tray icon.
#[derive(Debug)]
pub enum Action {
    /// Leave the icon as it is.
    Keep,
    /// Put this image in the place of the icon.
    Replace(Bitmap),
    /// Take the icon away and end the event loop.
    Exit,
}

/// What an `Action` stands for.
pub enum Step {
    Keep,
    Replace(Picture),
    Exit,
}

impl View for Action {
    type V = Step;

    open spec fn view(&self) -> Step {
        match self {
            Action::Keep => Step::Keep,
            Action::Replace(bitmap) => Step::Replace(bitmap@),
            Action::Exit => Step::Exit,
        }
    }
}

/// What the outcome of handling an event stands for.
pub open spec fn outcome(result: Result<Action, IconError>) -> Result<Step, IconError> {
    match result {
        Ok(action) => Ok(action@),
        Err(error) => Err(error),
    }
}

/// What follows from a reading: without one the icon stays; with one the
/// icon is replaced by that for its whole degrees, if the font allows it.
pub open spec fn after_reading(reading: Option<Reading>, font: Seq<u8>) -> Result<
    Step,
    IconError,
> {
    match reading {
        None => Ok(Step::Keep),
        Some(r) => match icon_for(r.temperature.truncated() as u8, font) {
            Ok(picture) => Ok(Step::Replace(picture)),
            Err(error) => Err(error),
        },
    }
}

/// Makes the icon that is shown when the program starts.
pub fn initial_icon(font_data: &[u8]) -> (icon: Result<Bitmap, IconError>)
    ensures
        crate::icon::rendering(icon) == icon_for(INITIAL_TEMPERATURE, font_data@),
{
    create_icon_with_text(INITIAL_TEMPERATURE, font_data)
}

/// Decides what to do with the icon once the sensors have been read.
pub fn show_reading(reading: &Option<ComponentTemperature>, font_data: &[u8]) -> (result: Result<
    Action,
    IconError,
>)
    ensures
        outcome(result) == after_reading(reading.deep_view(), font_data@),
{
    match reading {
        None => Ok(Action::Keep),
        Some(found) => {
            let degrees = found.temperature.whole_degrees();
            match create_icon_with_text(degrees, font_data) {
                Ok(bitmap) => Ok(Action::Replace(bitmap)),
                Err(error) => Err(error),
            }
        },
    }
}

/// Handles one event.
///
/// A tick reads the sensors and shows what they say. The quit item of the
/// menu ends the program. Nothing else changes the icon. What a tick finds
/// is for the machine to say: its outcome is that of some reading, and if
/// there is a reading, it comes from a die sensor.
pub fn dispatch(event: UserEvent, font_data: &[u8]) -> (result: Result<Action, IconError>)
    ensures
        event == UserEvent::TrayIconEvent ==> outcome(result) == Ok::<Step, IconError>(Step::Keep),
        event matches UserEvent::MenuEvent { quit } ==> outcome(result) == Ok::<Step, IconError>(
            if quit {
                Step::Exit
            } else {
                Step::Keep
            },
        ),
        event == UserEvent::Tick ==> exists|reading: Option<Reading>|
            {
                &&& reading matches Some(r) ==> is_die_label(r.label)
                &&& outcome(result) == #[trigger] after_reading(reading, font_data@)
            },
{
    match event {
        UserEvent::Tick => {
            let reading = get_cpu_temperature();
            let result = show_reading(&reading, font_data);
            assert(outcome(result) == after_reading(reading.deep_view(), font_data@));
            result
        },
        UserEvent::TrayIconEvent => Ok(Action::Keep),
        UserEvent::MenuEvent { quit } => if quit {
            Ok(Action::Exit)
        } else {
            Ok(Action::Keep)
        },
    }
}

} // verus!
