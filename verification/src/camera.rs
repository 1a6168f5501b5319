//! The state of one camera and the operations its owners call on it.

use vstd::prelude::*;
use crate::{CameraMode, TextDescriptor};
use crate::fixed::{abs, half, minus, over, plus, round};
use crate::geometry::{Quat, Vec3};

verus! {

/// Smallest zoom distance while reading or flying.
pub const ZOOM_MIN: i64 = 3_000_000;

/// Smallest zoom distance while following a target.
pub const ZOOM_MIN_FOLLOW: i64 = 1_000_000;

/// Largest zoom distance in every mode.
pub const ZOOM_MAX: i64 = 100_000_000;

/// Frame time assumed while the camera is dormant: a sixtieth of a second.
pub const NOMINAL_DELTA_SECONDS: u64 = 16_667;

/// How long scrolling must rest before the residual eases to a whole row.
pub const SCROLL_IDLE_SECONDS: u64 = 250_000;

/// Distance below which two eased quantities count as equal.
pub const REST_TOLERANCE: i64 = 1_000;

/// Whether the camera is being driven.
#[derive(Clone, Copy, Debug, PartialEq, Eq, Structural)]
pub enum AwakeState {
    /// Not driven: easing runs on the nominal frame time.
    Dormant,
    /// Driven: easing runs on the measured frame time.
    Awake,
}

/// A one-shot timer that counts up to a fixed duration.
#[derive(Clone, Copy, Debug, PartialEq, Eq, Structural)]
pub struct IdleTimer {
    /// Time counted so far; never above `duration` after a tick.
    pub elapsed: u64,
    /// Time after which the timer has finished.
    pub duration: u64,
}

impl IdleTimer {
    /// Whether the timer has run for its whole duration.
    pub open spec fn spec_finished(&self) -> bool {
        self.elapsed >= self.duration
    }

    /// The timer after `delta` more has passed.
    pub open spec fn ticked(self, delta: u64) -> IdleTimer {
        IdleTimer {
            elapsed: if self.elapsed + delta >= self.duration {
                self.duration
            } else {
                (self.elapsed + delta) as u64
            },
            duration: self.duration,
        }
    }

    /// The timer started over.
    pub open spec fn restarted(self) -> IdleTimer {
        IdleTimer { elapsed: 0, duration: self.duration }
    }

    /// A timer of the given duration that has not run yet.
    pub fn new(duration: u64) -> (r: IdleTimer)
        ensures
            r == (IdleTimer { elapsed: 0, duration }),
    {
        IdleTimer { elapsed: 0, duration }
    }

    /// Tells whether the timer has run for its whole duration.
    #[verifier::when_used_as_spec(spec_finished)]
    pub fn finished(&self) -> (r: bool)
        ensures
            r == self.spec_finished(),
    {
        self.elapsed >= self.duration
    }

    /// Advances the timer by `delta`, stopping at its duration.
    pub fn tick(&mut self, delta: u64)
        ensures
            *final(self) == old(self).ticked(delta),
    {
        if delta >= self.duration || self.elapsed >= self.duration - delta {
            self.elapsed = self.duration;
        } else {
            self.elapsed = self.elapsed + delta;
        }
    }

    /// Starts the timer over.
    pub fn reset(&mut self)
        ensures
            *final(self) == old(self).restarted(),
    {
        self.elapsed = 0;
    }
}

/// Everything one camera remembers between frames.
///
/// The three `row_offset_*` fields form the handshake with the owner of the
/// text; that owner goes through [`ReaderCamera::set_row_offset_in`],
/// [`ReaderCamera::row_offset_out`] and
/// [`ReaderCamera::row_offset_delta_apply`].
#[derive(Debug, PartialEq, Eq)]
pub struct ReaderCamera {
    /// Flight speed.
    pub speed: i64,
    /// Pointer sensitivity of the look angles.
    pub sensitivity: i64,
    /// Pointer sensitivity of sideways swiping.
    pub swipe_sensitivity: i64,
    /// Pointer sensitivity of scrolling.
    pub mouse_scroll_sensitivity: i64,
    /// Wheel sensitivity of scrolling.
    pub wheel_scroll_sensitivity: i64,
    /// Sensitivity of zoom requests.
    pub zoom_sensitivity: i64,
    /// Largest lean angle, in degrees.
    pub pitch_max: i64,
    /// Easing time of pointer scrolling.
    pub mouse_scroll_easing_seconds: u64,
    /// Easing time of swiping.
    pub swipe_easing_seconds: u64,
    /// Easing time of the position while scrolling by key repeat.
    pub translation_easing_scroll_seconds: u64,
    /// Easing time of the position otherwise.
    pub translation_easing_seconds: u64,
    /// Easing time of the orientation.
    pub rotation_easing_seconds: u64,
    /// Easing time of the zoom.
    pub zoom_easing_seconds: u64,
    /// Easing time of the lean while scrolling.
    pub lean_easing_seconds: u64,
    /// Easing time of the lean while it returns to neutral.
    pub lean_reset_easing_seconds: u64,
    /// Lean angle, in degrees.
    pub pitch: i64,
    /// Turn angle, in degrees.
    pub yaw: i64,
    /// Distance from the target.
    pub zoom: i64,
    /// Distance the zoom eases toward.
    pub target_zoom: i64,
    /// Vertical position over the text.
    pub scroll: i64,
    /// Horizontal position over the text.
    pub swipe: i64,
    /// Column the view is swiped to.
    pub column: usize,
    /// Row at the centre of the view in the previous frame.
    pub target_row_prev: i64,
    /// Rows between the origin of the surface and its first row.
    pub row_constant_offset: i64,
    /// Row the owner of the text currently displays first.
    pub row_offset_app: u32,
    /// Row the position of the camera currently shows first.
    pub row_offset_camera: u32,
    /// Rows the owner of the text is asked to move by.
    pub row_offset_delta: i32,
    /// Rows in view.
    pub visible_rows: i64,
    /// Rows that will be in view once the zoom has settled.
    pub visible_rows_target: Option<i64>,
    /// Columns in view.
    pub visible_columns: i64,
    /// Columns that will be in view once the zoom has settled.
    pub visible_columns_target: Option<i64>,
    /// Upper border of the view on the text surface.
    pub y_top: i64,
    /// Lower border of the view on the text surface.
    pub y_bottom: i64,
    /// Left border of the view on the text surface.
    pub x_left: i64,
    /// Right border of the view on the text surface.
    pub x_right: i64,
    /// Easing time currently applied to the position.
    pub translation_easing_current: u64,
    /// Swipe not yet turned into whole columns.
    pub swipe_accum: i64,
    /// Scroll not yet turned into whole rows.
    pub scroll_accum: i64,
    /// Position the camera eases toward.
    pub target_translation: Vec3,
    /// Orientation the camera eases toward.
    pub target_rotation: Quat,
    /// Whether the projection is a perspective one.
    pub perspective: bool,
    /// Whether vertical motion is inverted.
    pub invert_y: bool,
    /// Whether a lean is still being resolved.
    pub pitch_changed: bool,
    /// Whether the camera is being driven.
    pub awake: AwakeState,
    /// Time since the last scroll event; delays the return to a whole row.
    pub scroll_idle_timer: IdleTimer,
    /// How the camera is driven.
    pub mode: CameraMode,
    /// Whether the position may change.
    pub enabled_translation: bool,
    /// Whether the zoom may change.
    pub enabled_zoom: bool,
    /// Whether the orientation may change.
    pub enabled_rotation: bool,
    /// Whether the wheel may scroll.
    pub enabled_scroll: bool,
    /// Value `enabled_translation` returns to.
    pub default_enabled_translation: bool,
    /// Value `enabled_zoom` returns to.
    pub default_enabled_zoom: bool,
    /// Value `enabled_rotation` returns to.
    pub default_enabled_rotation: bool,
    /// Value `enabled_scroll` returns to.
    pub default_enabled_scroll: bool,
    /// Handle of the object the camera looks at.
    pub target_entity: Option<u64>,
}

impl ReaderCamera {
    /// The state of a camera that has just been created.
    pub open spec fn initial() -> ReaderCamera {
        ReaderCamera {
            speed: 10_000_000,
            sensitivity: 3_000_000,
            swipe_sensitivity: 0,
            mouse_scroll_sensitivity: 1_000_000,
            wheel_scroll_sensitivity: 300_000,
            zoom_sensitivity: 1_000_000,
            pitch_max: 1_000_000,
            mouse_scroll_easing_seconds: 5_000_000,
            swipe_easing_seconds: 6_000_000,
            translation_easing_scroll_seconds: 150_000,
            translation_easing_seconds: 50_000,
            rotation_easing_seconds: 100_000,
            zoom_easing_seconds: 10_000,
            lean_easing_seconds: 100_000,
            lean_reset_easing_seconds: 50_000,
            pitch: 0,
            yaw: 0,
            zoom: 7_000_000,
            target_zoom: 7_000_000,
            scroll: 0,
            swipe: 0,
            column: 51,
            target_row_prev: 0,
            row_constant_offset: 0,
            row_offset_app: 0,
            row_offset_camera: 0,
            row_offset_delta: 0,
            visible_rows: 40_000_000,
            visible_rows_target: None,
            visible_columns: 80_000_000,
            visible_columns_target: None,
            y_top: 0,
            y_bottom: 0,
            x_left: 0,
            x_right: 0,
            translation_easing_current: 50_000,
            swipe_accum: 0,
            scroll_accum: 0,
            target_translation: Vec3::zero(),
            target_rotation: Quat::identity(),
            perspective: true,
            invert_y: false,
            pitch_changed: false,
            awake: AwakeState::Awake,
            scroll_idle_timer: IdleTimer { elapsed: 0, duration: SCROLL_IDLE_SECONDS },
            mode: CameraMode::Fly,
            enabled_translation: false,
            enabled_zoom: false,
            enabled_rotation: false,
            enabled_scroll: true,
            default_enabled_translation: false,
            default_enabled_zoom: false,
            default_enabled_rotation: false,
            default_enabled_scroll: true,
            target_entity: None,
        }
    }
}

impl Default for ReaderCamera {
    fn default() -> (r: ReaderCamera)
        ensures
            r == ReaderCamera::initial(),
    {
        ReaderCamera {
            speed: 10_000_000,
            sensitivity: 3_000_000,
            swipe_sensitivity: 0,
            mouse_scroll_sensitivity: 1_000_000,
            wheel_scroll_sensitivity: 300_000,
            zoom_sensitivity: 1_000_000,
            pitch_max: 1_000_000,
            mouse_scroll_easing_seconds: 5_000_000,
            swipe_easing_seconds: 6_000_000,
            translation_easing_scroll_seconds: 150_000,
            translation_easing_seconds: 50_000,
            rotation_easing_seconds: 100_000,
            zoom_easing_seconds: 10_000,
            lean_easing_seconds: 100_000,
            lean_reset_easing_seconds: 50_000,
            pitch: 0,
            yaw: 0,
            zoom: 7_000_000,
            target_zoom: 7_000_000,
            scroll: 0,
            swipe: 0,
            column: 51,
            target_row_prev: 0,
            row_constant_offset: 0,
            row_offset_app: 0,
            row_offset_camera: 0,
            row_offset_delta: 0,
            visible_rows: 40_000_000,
            visible_rows_target: None,
            visible_columns: 80_000_000,
            visible_columns_target: None,
            y_top: 0,
            y_bottom: 0,
            x_left: 0,
            x_right: 0,
            translation_easing_current: 50_000,
            swipe_accum: 0,
            scroll_accum: 0,
            target_translation: Vec3::zero(),
            target_rotation: Quat::identity(),
            perspective: true,
            invert_y: false,
            pitch_changed: false,
            awake: AwakeState::Awake,
            scroll_idle_timer: IdleTimer::new(SCROLL_IDLE_SECONDS),
            mode: CameraMode::Fly,
            enabled_translation: false,
            enabled_zoom: false,
            enabled_rotation: false,
            enabled_scroll: true,
            default_enabled_translation: false,
            default_enabled_zoom: false,
            default_enabled_rotation: false,
            default_enabled_scroll: true,
            target_entity: None,
        }
    }
}

/// Whether a zoom distance lies in the range allowed while reading.
pub open spec fn zoom_in_range(zoom: i64) -> bool {
    ZOOM_MIN <= zoom <= ZOOM_MAX
}

/// The row that a camera at height `camera_y` shows first: the height in
/// rows, less the constant offset and half the rows in view, rounded to the
/// nearest row and not below zero.
pub open spec fn reported_row(
    camera_y: i64,
    glyph_height: i64,
    row_constant_offset: i64,
    visible_rows: i64,
) -> u32 {
    let rows = round(
        minus(minus(over(abs(camera_y), glyph_height), row_constant_offset), half(visible_rows)),
    );
    if rows < 0 {
        0
    } else if rows > u32::MAX {
        u32::MAX
    } else {
        rows as u32
    }
}

impl ReaderCamera {
    /// The state after the pending row delta has been taken.
    pub open spec fn delta_taken(self) -> ReaderCamera {
        ReaderCamera { row_offset_delta: 0, ..self }
    }

    /// Whether the enabled capabilities equal their defaults.
    pub open spec fn spec_restrictions_are_default(&self) -> bool {
        &&& self.enabled_translation == self.default_enabled_translation
        &&& self.enabled_rotation == self.default_enabled_rotation
        &&& self.enabled_zoom == self.default_enabled_zoom
        &&& self.enabled_scroll == self.default_enabled_scroll
    }

    /// Whether the owner of the text has a move to make or to finish.
    pub open spec fn spec_move_requested(&self) -> bool {
        self.enabled_translation && (self.row_offset_app != self.row_offset_camera
            || self.row_offset_delta != 0)
    }

    /// Whether the zoom is still away from its target.
    pub open spec fn spec_is_zooming(&self) -> bool {
        abs(minus(self.target_zoom, self.zoom)) >= REST_TOLERANCE
    }

    /// Whether a camera at `translation` is still away from its target.
    pub open spec fn spec_is_moving(&self, translation: &Vec3) -> bool {
        !self.target_translation.abs_diff_eq(*translation, REST_TOLERANCE)
    }

    /// The frame time that easing runs on.
    pub open spec fn spec_frame_seconds(&self, measured: u64) -> u64 {
        if self.awake == AwakeState::Dormant {
            NOMINAL_DELTA_SECONDS
        } else {
            measured
        }
    }

    /// Whether the reading frame has what it needs: reader mode and a target.
    pub open spec fn spec_reads(&self) -> bool {
        self.mode == CameraMode::Reader && self.target_entity.is_some()
    }

    /// The state after the projection has been switched: a camera that
    /// leaves the perspective projection looks straight ahead.
    pub open spec fn perspective_toggled(self) -> ReaderCamera {
        if self.perspective {
            ReaderCamera { perspective: false, yaw: 0, pitch: 0, ..self }
        } else {
            ReaderCamera { perspective: true, ..self }
        }
    }

    /// Switches between the perspective and the orthographic projection and
    /// tells whether the perspective one is now in use.
    pub fn toggle_perspective(&mut self) -> (r: bool)
        ensures
            *final(self) == old(self).perspective_toggled(),
            r == !old(self).perspective,
    {
        self.perspective = !self.perspective;
        if !self.perspective {
            self.yaw = 0;
            self.pitch = 0;
        }
        self.perspective
    }

    /// The depth at which a camera stands once its zoom has settled, before
    /// a surface at depth `target_z`.
    pub open spec fn spec_target_depth(&self, target_z: i64) -> i64 {
        plus(self.target_zoom, target_z)
    }

    /// Computes the depth at which the camera stands once its zoom has
    /// settled.
    #[verifier::when_used_as_spec(spec_target_depth)]
    pub fn target_depth(&self, target_z: i64) -> (r: i64)
        ensures
            r == self.spec_target_depth(target_z),
    {
        plus(self.target_zoom, target_z)
    }

    /// Switches the way the camera is driven.
    pub fn set_mode(&mut self, mode: CameraMode)
        ensures
            *final(self) == (ReaderCamera { mode, ..*old(self) }),
    {
        self.mode = mode;
    }

    /// Switches the mode and sets which capabilities are enabled.
    pub fn set_mode_wrestrictions(
        &mut self,
        camera_mode: CameraMode,
        translation: bool,
        rotation: bool,
        zoom: bool,
        scroll: bool,
    )
        ensures
            *final(self) == (ReaderCamera {
                mode: camera_mode,
                enabled_translation: translation,
                enabled_rotation: rotation,
                enabled_zoom: zoom,
                enabled_scroll: scroll,
                ..*old(self)
            }),
    {
        self.mode = camera_mode;
        self.set_restrictions(translation, rotation, zoom, scroll);
    }

    /// Sets which capabilities are enabled.
    pub fn set_restrictions(&mut self, translation: bool, rotation: bool, zoom: bool, scroll: bool)
        ensures
            *final(self) == (ReaderCamera {
                enabled_translation: translation,
                enabled_rotation: rotation,
                enabled_zoom: zoom,
                enabled_scroll: scroll,
                ..*old(self)
            }),
    {
        self.enabled_translation = translation;
        self.enabled_rotation = rotation;
        self.enabled_zoom = zoom;
        self.enabled_scroll = scroll;
    }

    /// Returns every capability to its default.
    pub fn apply_default_restrictions(&mut self)
        ensures
            *final(self) == (ReaderCamera {
                enabled_translation: old(self).default_enabled_translation,
                enabled_rotation: old(self).default_enabled_rotation,
                enabled_zoom: old(self).default_enabled_zoom,
                enabled_scroll: old(self).default_enabled_scroll,
                ..*old(self)
            }),
            final(self).spec_restrictions_are_default(),
    {
        self.enabled_translation = self.default_enabled_translation;
        self.enabled_rotation = self.default_enabled_rotation;
        self.enabled_zoom = self.default_enabled_zoom;
        self.enabled_scroll = self.default_enabled_scroll;
    }

    /// Tells whether the enabled capabilities equal their defaults.
    #[verifier::when_used_as_spec(spec_restrictions_are_default)]
    pub fn restrictions_are_default(&self) -> (r: bool)
        ensures
            r == self.spec_restrictions_are_default(),
    {
        self.enabled_translation == self.default_enabled_translation && self.enabled_rotation
            == self.default_enabled_rotation && self.enabled_zoom == self.default_enabled_zoom
            && self.enabled_scroll == self.default_enabled_scroll
    }

    /// Makes every capability disabled by default.
    pub fn set_all_default_restrictions_false(&mut self)
        ensures
            *final(self) == (ReaderCamera {
                default_enabled_translation: false,
                default_enabled_rotation: false,
                default_enabled_zoom: false,
                default_enabled_scroll: false,
                ..*old(self)
            }),
    {
        self.default_enabled_translation = false;
        self.default_enabled_rotation = false;
        self.default_enabled_zoom = false;
        self.default_enabled_scroll = false;
    }

    /// Records the row that the owner of the text currently displays first.
    pub fn set_row_offset_in(&mut self, row_offset_in: u32)
        ensures
            *final(self) == (ReaderCamera { row_offset_app: row_offset_in, ..*old(self) }),
    {
        self.row_offset_app = row_offset_in;
    }

    /// The row that the owner of the text last said it displays first.
    pub fn row_offset_in(&self) -> (r: u32)
        ensures
            r == self.row_offset_app,
    {
        self.row_offset_app
    }

    /// The row that the position of the camera currently shows first.
    pub fn row_offset_out(&self) -> (r: u32)
        ensures
            r == self.row_offset_camera,
    {
        self.row_offset_camera
    }

    /// The rows the owner of the text is asked to move by, left in place.
    pub fn row_offset_delta(&self) -> (r: i32)
        ensures
            r == self.row_offset_delta,
    {
        self.row_offset_delta
    }

    /// Takes the pending row delta: returns it and leaves zero behind, so
    /// that no delta is ever handed out twice.
    pub fn row_offset_delta_apply(&mut self) -> (r: i32)
        ensures
            r == old(self).row_offset_delta,
            *final(self) == old(self).delta_taken(),
    {
        let cache: i32 = self.row_offset_delta;
        self.row_offset_delta = 0;
        cache
    }

    /// Marks the camera as not driven.
    pub fn put_to_sleep(&mut self)
        ensures
            *final(self) == (ReaderCamera { awake: AwakeState::Dormant, ..*old(self) }),
    {
        self.awake = AwakeState::Dormant;
    }

    /// Marks the camera as driven.
    pub fn wake_up(&mut self)
        ensures
            *final(self) == (ReaderCamera { awake: AwakeState::Awake, ..*old(self) }),
    {
        self.awake = AwakeState::Awake;
    }

    /// Tells whether the camera is driven.
    pub fn is_awake(&self) -> (r: bool)
        ensures
            r == (self.awake == AwakeState::Awake),
    {
        self.awake == AwakeState::Awake
    }

    /// Tells whether the camera is not driven.
    pub fn is_dormant(&self) -> (r: bool)
        ensures
            r == (self.awake == AwakeState::Dormant),
    {
        self.awake == AwakeState::Dormant
    }

    /// Tells whether the owner of the text has a move to make or to finish.
    #[verifier::when_used_as_spec(spec_move_requested)]
    pub fn move_requested(&self) -> (r: bool)
        ensures
            r == self.spec_move_requested(),
    {
        if !self.enabled_translation {
            return false;
        }
        self.row_offset_in() != self.row_offset_out() || self.row_offset_delta() != 0
    }

    /// Tells whether the zoom is still away from its target.
    #[verifier::when_used_as_spec(spec_is_zooming)]
    pub fn is_zooming(&self) -> (r: bool)
        ensures
            r == self.spec_is_zooming(),
    {
        abs(minus(self.target_zoom, self.zoom)) >= REST_TOLERANCE
    }

    /// Tells whether a camera at `translation` is still away from its target.
    #[verifier::when_used_as_spec(spec_is_moving)]
    pub fn is_moving(&self, translation: &Vec3) -> (r: bool)
        ensures
            r == self.spec_is_moving(translation),
    {
        !self.target_translation.abs_diff_eq(*translation, REST_TOLERANCE)
    }

    /// The frame time that easing runs on: the measured one while awake, the
    /// nominal one while dormant.
    #[verifier::when_used_as_spec(spec_frame_seconds)]
    pub fn frame_seconds(&self, measured: u64) -> (r: u64)
        ensures
            r == self.spec_frame_seconds(measured),
    {
        if self.awake == AwakeState::Dormant {
            NOMINAL_DELTA_SECONDS
        } else {
            measured
        }
    }

    /// Tells whether the reading frame has what it needs; without it the
    /// frame is skipped.
    #[verifier::when_used_as_spec(spec_reads)]
    pub fn reads(&self) -> (r: bool)
        ensures
            r == self.spec_reads(),
    {
        self.mode == CameraMode::Reader && self.target_entity.is_some()
    }

    /// The state after the reported row has been derived from the height
    /// `camera_y` of the camera.
    pub open spec fn row_reported(
        self,
        camera_y: i64,
        text_descriptor: &TextDescriptor,
    ) -> ReaderCamera {
        ReaderCamera {
            row_offset_camera: reported_row(
                camera_y,
                text_descriptor.glyph_height,
                self.row_constant_offset,
                self.visible_rows,
            ),
            ..self
        }
    }

    /// Derives the reported row from the height the camera has actually
    /// reached.
    pub fn report_row_offset(&mut self, camera_y: i64, text_descriptor: &TextDescriptor)
        requires
            text_descriptor.valid(),
        ensures
            *final(self) == old(self).row_reported(camera_y, text_descriptor),
    {
        let rows: i64 = round(
            minus(
                minus(over(abs(camera_y), text_descriptor.glyph_height), self.row_constant_offset),
                half(self.visible_rows),
            ),
        );
        self.row_offset_camera = if rows < 0 {
            0
        } else if rows > u32::MAX as i64 {
            u32::MAX
        } else {
            rows as u32
        };
    }
}

} // verus!
