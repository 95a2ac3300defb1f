//! Answers about the display.

use vstd::prelude::*;

use crate::debug::readout;
use crate::debug::session::Reply;
use crate::debug::{explained, summarised};
use crate::gba::ppu::debug::explain::ExplainError;
use crate::gba::system::System;
use crate::text;

verus! {

/// The message for a pixel that cannot be explained.
pub open spec fn explain_message(error: ExplainError) -> Seq<char> {
    match error {
        ExplainError::PixelOutsideFramebuffer { x, y } => "PixelOutsideFramebuffer { x: "@
            + text::numeral(x as nat, 10) + ", y: "@ + text::numeral(y as nat, 10) + " }"@,
        ExplainError::FrameUnavailable { requested, oldest } => "FrameUnavailable { requested: "@
            + text::numeral(requested as nat, 10) + ", oldest: "@ + text::numeral(
            oldest as nat,
            10,
        ) + " }"@,
        ExplainError::ReplayUnavailable => "ReplayUnavailable"@,
    }
}

/// The display's registers are told.
#[verifier::opaque]
pub open spec fn tells_video(was: System, is: System, reply: Reply, engine: u64) -> bool {
    let bus = was.gba.bus@;
    let video = bus.io.video;
    &&& is == was
    &&& reply matches Reply::VideoState {
        engine: e,
        mode,
        dispcnt,
        frame,
        backgrounds,
        registers,
    }
    &&& e == engine && mode == video.registers.dispcnt % 8
    &&& dispcnt == video.registers.dispcnt && frame == video.frame_counter
    &&& backgrounds@ == seq![
        video.background(0),
        video.background(1),
        video.background(2),
        video.background(3),
    ]
    &&& registers == video.registers
}

/// Looking at the picture draws it again and leaves the rest of the machine alone.
pub open spec fn redrawn(was: System, is: System, y: u16) -> bool {
    &&& is.same_but_bus(was)
    &&& is.gba.bus@ == was.redrawn(y)
}

/// A pixel is explained.
#[verifier::opaque]
pub open spec fn explains_pixel(was: System, is: System, reply: Reply, engine: u64, x: u16, y: u16) -> bool {
    &&& x < 240 && y < 160
    &&& redrawn(was, is, y)
    &&& reply matches Reply::Pixel { engine: e, explanation }
    &&& e == engine && explained(was, x, y, explanation)
}

/// A scanline is summarised.
#[verifier::opaque]
pub open spec fn explains_line(was: System, is: System, reply: Reply, engine: u64, y: u16) -> bool {
    &&& redrawn(
        was,
        is,
        if y < 160 {
            y
        } else {
            159u16
        },
    )
    &&& reply matches Reply::Scanline { engine: e, y: line, explanation }
    &&& e == engine && line == y && summarised(was, y, explanation)
}

fn explain_error(error: ExplainError) -> (message: String)
    ensures
        message@ == explain_message(error),
{
    match error {
        ExplainError::PixelOutsideFramebuffer { x, y } => {
            let mut message = text::text("PixelOutsideFramebuffer { x: ");
            message.append(text::decimal(x as u32).as_str());
            message.append(", y: ");
            message.append(text::decimal(y as u32).as_str());
            message.append(" }");
            message
        },
        ExplainError::FrameUnavailable { requested, oldest } => {
            let mut message = text::text("FrameUnavailable { requested: ");
            message.append(text::decimal64(requested).as_str());
            message.append(", oldest: ");
            message.append(text::decimal64(oldest).as_str());
            message.append(" }");
            message
        },
        ExplainError::ReplayUnavailable => text::text("ReplayUnavailable"),
    }
}

/// `video.state`
pub fn video_state(system: &mut System, engine: u64) -> (reply: Reply)
    requires
        old(system).valid(),
    ensures
        final(system).valid(),
        tells_video(*old(system), *final(system), reply, engine),
{
    reveal(tells_video);
    let video = &system.gba.bus.io.video;
    Reply::VideoState {
        engine,
        mode: video.current_mode(),
        dispcnt: video.read_dispcnt(),
        frame: video.frame(),
        backgrounds: video.backgrounds(),
        registers: video.registers,
    }
}

/// `video.explainPixel`
pub fn explain_pixel(system: &mut System, engine: u64, x: u16, y: u16) -> (result: Result<
    Reply,
    String,
>)
    requires
        old(system).valid(),
    ensures
        final(system).valid(),
        match result {
            Ok(reply) => explains_pixel(*old(system), *final(system), reply, engine, x, y),
            Err(message) => {
                &&& x >= 240 || y >= 160
                &&& message@ == explain_message(ExplainError::PixelOutsideFramebuffer { x, y })
                &&& readout::unchanged(*old(system), *final(system))
            },
        },
{
    reveal(explains_pixel);
    match system.explain_pixel(x, y) {
        Ok(explanation) => Ok(Reply::Pixel { engine, explanation }),
        Err(error) => Err(explain_error(error)),
    }
}

/// `video.scanline`
pub fn scanline(system: &mut System, engine: u64, y: u16) -> (reply: Reply)
    requires
        old(system).valid(),
    ensures
        final(system).valid(),
        explains_line(*old(system), *final(system), reply, engine, y),
{
    reveal(explains_line);
    let explanation = system.inspect_scanline(y);
    Reply::Scanline { engine, y, explanation }
}

} // verus!
