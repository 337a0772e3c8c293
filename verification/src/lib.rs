//! EverVox: o núcleo verificável do Ditado por voz.

pub mod nucleo;
pub mod texto;
pub mod limpeza;
pub mod config;
pub mod foco;
pub mod wav;
pub mod transcricao;
pub mod preparo;
pub mod resumo;
pub mod entrega;
pub mod pipeline;
