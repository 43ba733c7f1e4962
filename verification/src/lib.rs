//! Gamified academic scoreboard: turns per-course grade and attendance data
//! scraped from a university portal into experience, levels, coins, bonuses
//! and penalties, and keeps the resulting student records in a keyed registry.
//!
//! All scoring arithmetic is exact integer arithmetic: grades and attendance
//! percentages are carried in tenths, the overall mean in hundredths.

pub mod coins;
pub mod extract;
pub mod games;
pub mod level;
pub mod numparse;
pub mod pages;
pub mod registry;
pub mod scan;
pub mod scrape;
pub mod shop;
pub mod student;
