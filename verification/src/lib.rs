//! The decision core of a weather-radar workstation.

pub mod text;
pub mod paths;
pub mod source_field;
pub mod registry;
pub mod catalog;
pub mod theme;
pub mod moment;
pub mod age;
pub mod clock;
pub mod frame;
pub mod find;
pub mod bar;
pub mod bytes;
pub mod history;
pub mod panes;
pub mod workspace;
pub mod vrot;
pub mod tilt;
pub mod live;
pub mod readouts;
pub mod sequence;
pub mod follow;
pub mod display;
pub mod loop_export;
pub mod planner;
pub mod sites;
pub mod app;
pub mod exports;
pub mod install;
pub mod session;
pub mod choices;
pub mod sweeps;
pub mod probe;
pub mod settings;
pub mod placefile;
pub mod toolbar;
pub mod canvas;
pub mod windows;
