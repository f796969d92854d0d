pub mod inscribes;
