//! A voting system: users register and are approved by an administrator,
//! apply as candidates or voters of an election, vote within the election's
//! time window, and the results are ranked once the election has ended.

pub mod cuenta;
pub mod fecha;
pub mod usuario;
pub mod votacion;
pub mod resultados;
pub mod sistema;
pub mod invariante;
pub mod reporte;
pub mod mensajes;
pub mod leyes;
pub mod respuestas;

pub use cuenta::{AccountId, Timestamp};
pub use fecha::Fecha;
pub use usuario::{Rol, Usuario};
pub use votacion::Votacion;
pub use resultados::{ErrorReporte, InformeVotacion, Posicion};
pub use sistema::{ErrorSistema, Sistema};
pub use reporte::{Reporte, resultados};
