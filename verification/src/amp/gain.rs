pub mod noise_gate;
