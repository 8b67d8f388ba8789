pub mod crossentropy;
