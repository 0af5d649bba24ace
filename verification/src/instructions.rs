pub mod blacklist;
pub mod burn;
pub mod freeze;
pub mod initialize;
pub mod mint;
pub mod pause;
pub mod roles;
pub mod seize;
