pub mod completion;
