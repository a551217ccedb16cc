//! The decisions of the routes: what each request is answered with, and what it
//! asks of the database.
pub mod leaderboard;
pub mod old_leaderboard;
pub mod global_leaderboard;
pub mod scores;
pub mod web_leaderboard;
pub mod account;
pub mod signout;
pub mod signup;
pub mod friends;
pub mod utilities;
pub mod upload_score;
pub mod achievements;
