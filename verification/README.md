# EverVox

Serviço de ditado por voz para GNOME/Wayland: um atalho (o Toggle) grava a
fala, o Engine transcreve, a Limpeza/Tradução por LLM (opcional) ajusta o
texto e a Entrega o coloca no clipboard do app focado.

- `src/` é a biblioteca verificada com Verus: a máquina de estados do
  Toggle (`nucleo`), a config e seus defaults (`config`), o prompt da
  Limpeza e da Tradução (`limpeza`), o plano de preparo do Daemon
  (`preparo`), as regras da transcrição (`transcricao`), a codificação WAV
  (`wav`, via `hound`), a escolha do atalho de colar (`foco`), o texto
  entregue (`entrega`), a sequência do pipeline depois da Gravação
  (`pipeline`), os textos ao usuário (`resumo`) e operações de
  texto (`texto`).
- `app/` é o programa `evervox`: CLI (`toggle`, `set-key`, `status`) e
  Daemon (`evervox daemon`), com D-Bus, microfone, rede, Keyring e
  notificações.
- `tests/` exercita a biblioteca.
